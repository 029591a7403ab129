//! Text helpers with exact specifications: decimal rendering and parsing of
//! unsigned integers (the behaviour of std's `Display` and `FromStr` for them),
//! boolean parsing, splitting on a separator, prefixes and equality.

use vstd::prelude::*;
use vstd::string::*;

verus! {

/// Appends one character to a string.
/// Trusted: `String::push`, which std documents as appending `ch` to the end of the string.
#[verifier::external_body]
pub(crate) fn push_char(s: &mut String, ch: char)
    ensures
        final(s)@ == old(s)@.push(ch),
{
    s.push(ch);
}

/// The ASCII decimal digit for `d` (which is below ten).
pub open spec fn digit_char(d: nat) -> char {
    ((48 + d) as u8) as char
}

/// The decimal rendering of `n`, without sign or leading zeros ("0" for zero).
pub open spec fn decimal(n: nat) -> Seq<char>
    decreases n,
{
    if n < 10 {
        seq![digit_char(n)]
    } else {
        decimal(n / 10).push(digit_char(n % 10))
    }
}

/// Whether `c` is an ASCII decimal digit.
pub open spec fn is_digit(c: char) -> bool {
    '0' <= c && c <= '9'
}

/// The value of an ASCII digit character.
pub open spec fn digit_value(c: char) -> nat {
    ((c as u32) - 48) as nat
}

/// The value of a sequence of decimal digits, most significant first.
pub open spec fn digits_value(d: Seq<char>) -> nat
    decreases d.len(),
{
    if d.len() == 0 {
        0
    } else {
        digits_value(d.drop_last()) * 10 + digit_value(d.last())
    }
}

pub open spec fn all_digits(d: Seq<char>) -> bool {
    forall|i: int| 0 <= i < d.len() ==> #[trigger] is_digit(d[i])
}

/// The digits that an unsigned `FromStr` reads: the text without one leading `+`.
pub open spec fn unsigned_digits(s: Seq<char>) -> Seq<char> {
    if s.len() > 0 && s[0] == '+' {
        s.skip(1)
    } else {
        s
    }
}

/// What std's `FromStr` for an unsigned integer type whose maximum is `max` gives:
/// an optional leading `+`, then one or more ASCII digits, and a value not above `max`.
pub open spec fn parse_unsigned(s: Seq<char>, max: nat) -> Option<nat> {
    let d = unsigned_digits(s);
    if d.len() > 0 && all_digits(d) && digits_value(d) <= max {
        Some(digits_value(d))
    } else {
        None
    }
}

/// What std's `FromStr` for `bool` gives.
pub open spec fn parse_bool_spec(s: Seq<char>) -> Option<bool> {
    if s == seq!['t', 'r', 'u', 'e'] {
        Some(true)
    } else if s == seq!['f', 'a', 'l', 's', 'e'] {
        Some(false)
    } else {
        None
    }
}

/// The pieces of `s` between occurrences of `sep`, as `str::split` yields them.
pub open spec fn split_spec(s: Seq<char>, sep: char) -> Seq<Seq<char>>
    decreases s.len(),
{
    if s.len() == 0 {
        seq![Seq::<char>::empty()]
    } else {
        let rest = split_spec(s.drop_last(), sep);
        if s.last() == sep {
            rest.push(Seq::<char>::empty())
        } else {
            rest.update(rest.len() - 1, rest.last().push(s.last()))
        }
    }
}

/// Splitting always gives at least one part.
pub proof fn lemma_split_nonempty(s: Seq<char>, sep: char)
    ensures
        split_spec(s, sep).len() >= 1,
    decreases s.len(),
{
    if s.len() > 0 {
        lemma_split_nonempty(s.drop_last(), sep);
    }
}

/// Every number has at least one decimal digit.
pub proof fn lemma_decimal_nonempty(n: nat)
    ensures
        decimal(n).len() >= 1,
    decreases n,
{
    if n >= 10 {
        lemma_decimal_nonempty(n / 10);
    }
}

proof fn lemma_digits_value_monotone(d: Seq<char>, k: int)
    requires
        0 <= k <= d.len(),
    ensures
        digits_value(d.take(k)) <= digits_value(d),
    decreases d.len() - k,
{
    if k < d.len() {
        lemma_digits_value_monotone(d, k + 1);
        assert(d.take(k + 1).drop_last() =~= d.take(k));
    } else {
        assert(d.take(k) =~= d);
    }
}

/// The characters of `s`.
pub fn chars_of(s: &str) -> (v: Vec<char>)
    ensures
        v@ == s@,
{
    let n = s.unicode_len();
    let mut v: Vec<char> = Vec::new();
    let mut i: usize = 0;
    while i < n
        invariant
            n == s@.len(),
            i <= n,
            v@ == s@.take(i as int),
        decreases n - i,
    {
        let c = s.get_char(i);
        v.push(c);
        proof {
            assert(s@.take(i + 1) =~= s@.take(i as int).push(c));
        }
        i += 1;
    }
    proof {
        assert(s@.take(n as int) =~= s@);
    }
    v
}

/// A string holding exactly the characters `v`.
pub fn string_from_chars(v: &[char]) -> (s: String)
    ensures
        s@ == v@,
{
    let mut s = String::new();
    let mut i: usize = 0;
    while i < v.len()
        invariant
            i <= v.len(),
            s@ == v@.take(i as int),
        decreases v.len() - i,
    {
        push_char(&mut s, v[i]);
        proof {
            assert(v@.take(i + 1) =~= v@.take(i as int).push(v@[i as int]));
        }
        i += 1;
    }
    proof {
        assert(v@.take(v.len() as int) =~= v@);
    }
    s
}

/// An owned copy of `s`.
pub fn owned(s: &str) -> (r: String)
    ensures
        r@ == s@,
{
    s.to_owned()
}

/// `a` followed by `b`.
pub fn concat(a: &str, b: &str) -> (r: String)
    ensures
        r@ == a@ + b@,
{
    let mut r = a.to_owned();
    r.append(b);
    r
}

/// Whether `a` and `b` hold the same characters.
pub fn str_eq(a: &str, b: &str) -> (r: bool)
    ensures
        r == (a@ == b@),
{
    let x = a.to_owned();
    let y = b.to_owned();
    x == y
}

/// Whether `s` begins with `prefix`.
pub fn starts_with(s: &str, prefix: &str) -> (r: bool)
    ensures
        r == (prefix@.len() <= s@.len() && s@.take(prefix@.len() as int) == prefix@),
{
    let sv = chars_of(s);
    let pv = chars_of(prefix);
    if pv.len() > sv.len() {
        return false;
    }
    let mut i: usize = 0;
    while i < pv.len()
        invariant
            pv@ == prefix@,
            sv@ == s@,
            pv.len() <= sv.len(),
            i <= pv.len(),
            forall|j: int| 0 <= j < i ==> sv@[j] == pv@[j],
        decreases pv.len() - i,
    {
        if sv[i] != pv[i] {
            proof {
                assert(s@.take(prefix@.len() as int)[i as int] != prefix@[i as int]);
            }
            return false;
        }
        i += 1;
    }
    proof {
        assert(s@.take(prefix@.len() as int) =~= prefix@);
    }
    true
}

/// The decimal rendering of `n`, as `n.to_string()` gives it.
pub fn decimal_string(n: u64) -> (s: String)
    ensures
        s@ == decimal(n as nat),
{
    let mut rev: Vec<char> = Vec::new();
    let mut m: u64 = n;
    let ghost mut parts: Seq<nat> = seq![];
    // Collect digits from the least significant one.
    loop
        invariant_except_break
            m <= n,
            decimal(n as nat) == decimal(m as nat) + rev@.reverse(),
        ensures
            decimal(n as nat) == rev@.reverse(),
        decreases m,
    {
        let d = (m % 10) as u8;
        let c = (48u8 + d) as char;
        let ghost old_rev = rev@;
        if m < 10 {
            proof {
                assert(decimal(m as nat) == seq![digit_char(m as nat)]);
                assert(c == digit_char(m as nat));
            }
            rev.push(c);
            proof {
                assert(rev@.reverse() =~= seq![c] + old_rev.reverse());
            }
            break;
        }
        proof {
            assert(decimal(m as nat) == decimal((m / 10) as nat).push(digit_char((m % 10) as nat)));
            assert(c == digit_char((m % 10) as nat));
        }
        rev.push(c);
        proof {
            assert(rev@.reverse() =~= seq![c] + old_rev.reverse());
            assert(decimal((m / 10) as nat).push(c) + old_rev.reverse()
                =~= decimal((m / 10) as nat) + (seq![c] + old_rev.reverse()));
        }
        m = m / 10;
    }
    let mut out: Vec<char> = Vec::new();
    let mut i: usize = rev.len();
    while i > 0
        invariant
            i <= rev.len(),
            out@ == rev@.subrange(i as int, rev.len() as int).reverse(),
        decreases i,
    {
        i -= 1;
        let ghost old_out = out@;
        out.push(rev[i]);
        proof {
            assert(rev@.subrange(i as int, rev.len() as int).reverse()
                =~= old_out.push(rev@[i as int]));
        }
    }
    proof {
        assert(rev@.subrange(0, rev.len() as int) =~= rev@);
        assert(decimal(n as nat) =~= out@);
    }
    string_from_chars(&out)
}

/// Why std's `FromStr` refuses a text as an unsigned integer.
#[derive(Debug, Clone, Copy, PartialEq, Eq, Structural)]
pub enum IntErrorKind {
    Empty,
    InvalidDigit,
    PosOverflow,
}

/// The message std's `ParseIntError` shows for each kind.
pub open spec fn int_error_message(k: IntErrorKind) -> Seq<char> {
    match k {
        IntErrorKind::Empty => "cannot parse integer from empty string"@,
        IntErrorKind::InvalidDigit => "invalid digit found in string"@,
        IntErrorKind::PosOverflow => "number too large to fit in target type"@,
    }
}

impl IntErrorKind {
    /// The text of this error, as `ParseIntError`'s `Display` shows it.
    pub fn message(&self) -> (m: String)
        ensures
            m@ == int_error_message(*self),
    {
        match self {
            IntErrorKind::Empty => owned("cannot parse integer from empty string"),
            IntErrorKind::InvalidDigit => owned("invalid digit found in string"),
            IntErrorKind::PosOverflow => owned("number too large to fit in target type"),
        }
    }
}

/// The first failure met when the digits `d` are read from position `k` on:
/// a character that is no digit, or a value that passes `max`.
pub open spec fn first_failure_from(d: Seq<char>, max: nat, k: int) -> Option<IntErrorKind>
    decreases d.len() - k,
{
    if k < 0 || k >= d.len() {
        None
    } else if !is_digit(d[k]) {
        Some(IntErrorKind::InvalidDigit)
    } else if digits_value(d.take(k + 1)) > max {
        Some(IntErrorKind::PosOverflow)
    } else {
        first_failure_from(d, max, k + 1)
    }
}

/// Why std's `FromStr` refuses `s`, read as an unsigned integer whose type has
/// maximum `max` (meaningful where `parse_unsigned` gives `None`).
pub open spec fn parse_error(s: Seq<char>, max: nat) -> IntErrorKind {
    if s.len() == 0 {
        IntErrorKind::Empty
    } else {
        match first_failure_from(unsigned_digits(s), max, 0) {
            Some(k) => k,
            None => IntErrorKind::InvalidDigit,
        }
    }
}

/// Parses `s` as std's `FromStr` parses an unsigned integer whose type has
/// maximum `max`, and says why it fails where it does.
pub fn parse_unsigned_checked(s: &str, max: u64) -> (r: Result<u64, IntErrorKind>)
    ensures
        r is Ok <==> parse_unsigned(s@, max as nat) is Some,
        r matches Ok(v) ==> parse_unsigned(s@, max as nat) == Some(v as nat),
        r matches Err(k) ==> k == parse_error(s@, max as nat),
{
    let sv = chars_of(s);
    if sv.len() == 0 {
        return Err(IntErrorKind::Empty);
    }
    let start: usize = if sv[0] == '+' { 1 } else { 0 };
    let ghost d = unsigned_digits(s@);
    proof {
        assert(d =~= sv@.subrange(start as int, sv.len() as int));
    }
    if start >= sv.len() {
        return Err(IntErrorKind::InvalidDigit);
    }
    let mut acc: u128 = 0;
    let mut i: usize = start;
    while i < sv.len()
        invariant
            sv@ == s@,
            sv@.len() > 0,
            start <= i <= sv.len(),
            start < sv.len(),
            d == sv@.subrange(start as int, sv.len() as int),
            d == unsigned_digits(s@),
            all_digits(d.take(i - start)),
            acc == digits_value(d.take(i - start)),
            acc <= max,
            first_failure_from(d, max as nat, 0) == first_failure_from(d, max as nat, i - start),
        decreases sv.len() - i,
    {
        let c = sv[i];
        let ghost k: int = i - start;
        if !('0' <= c && c <= '9') {
            proof {
                assert(d[k] == c);
                assert(!is_digit(d[k]));
            }
            return Err(IntErrorKind::InvalidDigit);
        }
        proof {
            assert(d.take(k + 1).drop_last() =~= d.take(k));
            assert(d.take(k + 1).last() == c);
        }
        acc = acc * 10 + ((c as u32) - 48) as u128;
        proof {
            assert(all_digits(d.take(k + 1))) by {
                assert forall|j: int| 0 <= j < k + 1 implies #[trigger] is_digit(d.take(k + 1)[j]) by {
                    if j < k {
                        assert(d.take(k + 1)[j] == d.take(k)[j]);
                    }
                }
            }
        }
        i += 1;
        if acc > max as u128 {
            proof {
                lemma_digits_value_monotone(d, k + 1);
                assert(digits_value(d) > max);
            }
            return Err(IntErrorKind::PosOverflow);
        }
    }
    proof {
        assert(d.take(i - start) =~= d);
    }
    Ok(acc as u64)
}

/// Parses `s` as std's `FromStr` parses an unsigned integer whose type has maximum `max`.
pub fn parse_unsigned_max(s: &str, max: u64) -> (r: Option<u64>)
    ensures
        r == (match parse_unsigned(s@, max as nat) {
            Some(v) => Some(v as u64),
            None => None::<u64>,
        }),
{
    match parse_unsigned_checked(s, max) {
        Ok(v) => Some(v),
        Err(_) => None,
    }
}

/// Parses `s` as std's `FromStr` for `u8` does.
pub fn parse_u8(s: &str) -> (r: Option<u8>)
    ensures
        r == (match parse_unsigned(s@, 255) {
            Some(v) => Some(v as u8),
            None => None::<u8>,
        }),
{
    match parse_unsigned_max(s, 255) {
        Some(v) => Some(v as u8),
        None => None,
    }
}

/// Parses `s` as std's `FromStr` for `u16` does.
pub fn parse_u16(s: &str) -> (r: Option<u16>)
    ensures
        r == (match parse_unsigned(s@, 65535) {
            Some(v) => Some(v as u16),
            None => None::<u16>,
        }),
{
    match parse_unsigned_max(s, 65535) {
        Some(v) => Some(v as u16),
        None => None,
    }
}

/// Parses `s` as std's `FromStr` for `u32` does.
pub fn parse_u32(s: &str) -> (r: Option<u32>)
    ensures
        r == (match parse_unsigned(s@, 4294967295) {
            Some(v) => Some(v as u32),
            None => None::<u32>,
        }),
{
    match parse_unsigned_max(s, 4294967295) {
        Some(v) => Some(v as u32),
        None => None,
    }
}

/// Parses `s` as std's `FromStr` for `u64` does.
pub fn parse_u64(s: &str) -> (r: Option<u64>)
    ensures
        r == (match parse_unsigned(s@, 18446744073709551615) {
            Some(v) => Some(v as u64),
            None => None::<u64>,
        }),
{
    parse_unsigned_max(s, 18446744073709551615)
}

/// Parses `s` as std's `FromStr` for `bool` does.
pub fn parse_bool(s: &str) -> (r: Option<bool>)
    ensures
        r == parse_bool_spec(s@),
{
    let t = owned("true");
    let f = owned("false");
    proof {
        reveal_strlit("true");
        reveal_strlit("false");
        assert(t@ =~= seq!['t', 'r', 'u', 'e']);
        assert(f@ =~= seq!['f', 'a', 'l', 's', 'e']);
    }
    if str_eq(s, t.as_str()) {
        Some(true)
    } else if str_eq(s, f.as_str()) {
        Some(false)
    } else {
        None
    }
}

/// The pieces of `s` separated by `sep`, as `s.split(sep)` yields them.
pub fn split_char(s: &str, sep: char) -> (parts: Vec<String>)
    ensures
        parts@.map_values(|p: String| p@) == split_spec(s@, sep),
{
    let sv = chars_of(s);
    let mut parts: Vec<String> = Vec::new();
    let mut cur: Vec<char> = Vec::new();
    let mut i: usize = 0;
    while i < sv.len()
        invariant
            sv@ == s@,
            i <= sv.len(),
            parts@.map_values(|p: String| p@).push(cur@) == split_spec(s@.take(i as int), sep),
        decreases sv.len() - i,
    {
        let c = sv[i];
        let ghost pre = s@.take(i as int);
        proof {
            assert(s@.take(i + 1).drop_last() =~= pre);
            assert(s@.take(i + 1).last() == c);
            lemma_split_nonempty(pre, sep);
        }
        if c == sep {
            let piece = string_from_chars(&cur);
            let ghost old_parts = parts@.map_values(|p: String| p@);
            parts.push(piece);
            cur = Vec::new();
            proof {
                assert(parts@.map_values(|p: String| p@) =~= old_parts.push(piece@));
                assert(parts@.map_values(|p: String| p@).push(cur@)
                    =~= split_spec(pre, sep).push(Seq::<char>::empty()));
            }
        } else {
            let ghost old_cur = cur@;
            cur.push(c);
            proof {
                let sp = split_spec(pre, sep);
                assert(parts@.map_values(|p: String| p@).push(cur@)
                    =~= sp.update(sp.len() - 1, sp.last().push(c)));
            }
        }
        i += 1;
    }
    let last = string_from_chars(&cur);
    let ghost old_parts = parts@.map_values(|p: String| p@);
    parts.push(last);
    proof {
        assert(s@.take(sv.len() as int) =~= s@);
        assert(parts@.map_values(|p: String| p@) =~= old_parts.push(cur@));
    }
    parts
}

/// The decimal rendering of a signed integer, with `-` before a negative one.
pub open spec fn signed_decimal(n: int) -> Seq<char> {
    if n < 0 {
        seq!['-'] + decimal((-n) as nat)
    } else {
        decimal(n as nat)
    }
}

/// The decimal rendering of `n`, as `n.to_string()` gives it.
pub fn signed_decimal_string(n: i64) -> (s: String)
    ensures
        s@ == signed_decimal(n as int),
{
    if n < 0 {
        let m: u64 = (0i128 - n as i128) as u64;
        let digits = decimal_string(m);
        proof {
            reveal_strlit("-");
            assert("-"@ =~= seq!['-']);
        }
        concat("-", digits.as_str())
    } else {
        decimal_string(n as u64)
    }
}

/// `true` or `false`, as `Display` writes a `bool`.
pub open spec fn bool_text(b: bool) -> Seq<char> {
    if b {
        "true"@
    } else {
        "false"@
    }
}

/// The text of a `bool`.
pub fn bool_string(b: bool) -> (s: String)
    ensures
        s@ == bool_text(b),
{
    if b {
        owned("true")
    } else {
        owned("false")
    }
}

/// Position of the first `c` in `s`.
pub open spec fn char_index(s: Seq<char>, c: char) -> Option<int>
    decreases s.len(),
{
    if s.len() == 0 {
        None
    } else if s[0] == c {
        Some(0)
    } else {
        match char_index(s.drop_first(), c) {
            Some(i) => Some(i + 1),
            None => None,
        }
    }
}

/// `char_index` gives the first position of the character, if any.
pub proof fn lemma_char_index(s: Seq<char>, c: char)
    ensures
        match char_index(s, c) {
            Some(i) => 0 <= i < s.len() && s[i] == c && forall|j: int| 0 <= j < i ==> s[j] != c,
            None => forall|j: int| 0 <= j < s.len() ==> s[j] != c,
        },
    decreases s.len(),
{
    if s.len() > 0 {
        lemma_char_index(s.drop_first(), c);
        if s[0] != c {
            match char_index(s.drop_first(), c) {
                Some(i) => {
                    assert forall|j: int| 0 <= j < i + 1 implies s[j] != c by {
                        if j > 0 {
                            assert(s[j] == s.drop_first()[j - 1]);
                        }
                    }
                },
                None => {
                    assert forall|j: int| 0 <= j < s.len() implies s[j] != c by {
                        if j > 0 {
                            assert(s[j] == s.drop_first()[j - 1]);
                        }
                    }
                },
            }
        }
    }
}

/// What `s.split_once(c)` gives: the text before and after the first `c`.
pub open spec fn split_once_spec(s: Seq<char>, c: char) -> Option<(Seq<char>, Seq<char>)> {
    match char_index(s, c) {
        Some(i) => Some((s.take(i), s.skip(i + 1))),
        None => None,
    }
}

/// What `s.strip_prefix(p)` gives.
pub open spec fn strip_prefix_spec(s: Seq<char>, p: Seq<char>) -> Option<Seq<char>> {
    if p.len() <= s.len() && s.take(p.len() as int) == p {
        Some(s.skip(p.len() as int))
    } else {
        None
    }
}

/// The characters `v[from..to]` as a string.
pub fn string_from_range(v: &[char], from: usize, to: usize) -> (s: String)
    requires
        from <= to <= v@.len(),
    ensures
        s@ == v@.subrange(from as int, to as int),
{
    let mut s = String::new();
    let mut i: usize = from;
    while i < to
        invariant
            from <= i <= to <= v@.len(),
            s@ == v@.subrange(from as int, i as int),
        decreases to - i,
    {
        push_char(&mut s, v[i]);
        proof {
            assert(v@.subrange(from as int, i + 1) =~= v@.subrange(from as int, i as int).push(v@[i as int]));
        }
        i += 1;
    }
    s
}

/// The text before and after the first `c` in `s`, as `s.split_once(c)` gives them.
pub fn split_once(s: &str, c: char) -> (r: Option<(String, String)>)
    ensures
        match split_once_spec(s@, c) {
            Some((a, b)) => r matches Some((x, y)) && x@ == a && y@ == b,
            None => r is None,
        },
{
    let v = chars_of(s);
    let mut i: usize = 0;
    while i < v.len()
        invariant
            v@ == s@,
            i <= v@.len(),
            forall|j: int| 0 <= j < i ==> v@[j] != c,
        decreases v.len() - i,
    {
        if v[i] == c {
            let a = string_from_range(&v, 0, i);
            let b = string_from_range(&v, i + 1, v.len());
            proof {
                lemma_char_index(s@, c);
                match char_index(s@, c) {
                    Some(k) => {
                        if k < i {
                            assert(v@[k] != c);
                        }
                        if k > i {
                            assert(s@[i as int] != c);
                        }
                    },
                    None => {
                        assert(s@[i as int] != c);
                    },
                }
                assert(v@.subrange(0, i as int) =~= s@.take(i as int));
                assert(v@.subrange(i + 1, v@.len() as int) =~= s@.skip(i + 1));
            }
            return Some((a, b));
        }
        i += 1;
    }
    proof {
        lemma_char_index(s@, c);
    }
    None
}

/// The rest of `s` after `prefix`, as `s.strip_prefix(prefix)` gives it.
pub fn strip_prefix(s: &str, prefix: &str) -> (r: Option<String>)
    ensures
        match strip_prefix_spec(s@, prefix@) {
            Some(t) => r matches Some(x) && x@ == t,
            None => r is None,
        },
{
    if starts_with(s, prefix) {
        let v = chars_of(s);
        let n = prefix.unicode_len();
        let t = string_from_range(&v, n, v.len());
        proof {
            assert(v@.subrange(n as int, v@.len() as int) =~= s@.skip(n as int));
        }
        Some(t)
    } else {
        None
    }
}


/// Whether `c` has Unicode's White_Space property, as `char::is_whitespace` tests.
pub open spec fn is_whitespace(c: char) -> bool {
    ||| '\u{9}' <= c && c <= '\u{d}'
    ||| c == ' '
    ||| c == '\u{85}'
    ||| c == '\u{a0}'
    ||| c == '\u{1680}'
    ||| '\u{2000}' <= c && c <= '\u{200a}'
    ||| c == '\u{2028}'
    ||| c == '\u{2029}'
    ||| c == '\u{202f}'
    ||| c == '\u{205f}'
    ||| c == '\u{3000}'
}

/// `s` without its leading whitespace.
pub open spec fn trim_start_spec(s: Seq<char>) -> Seq<char>
    decreases s.len(),
{
    if s.len() > 0 && is_whitespace(s[0]) {
        trim_start_spec(s.drop_first())
    } else {
        s
    }
}

/// `s` without its trailing whitespace.
pub open spec fn trim_end_spec(s: Seq<char>) -> Seq<char>
    decreases s.len(),
{
    if s.len() > 0 && is_whitespace(s.last()) {
        trim_end_spec(s.drop_last())
    } else {
        s
    }
}

/// `s` without leading and trailing whitespace, as `str::trim` gives it.
pub open spec fn trim_spec(s: Seq<char>) -> Seq<char> {
    trim_end_spec(trim_start_spec(s))
}

fn char_is_whitespace(c: char) -> (r: bool)
    ensures
        r == is_whitespace(c),
{
    ('\u{9}' <= c && c <= '\u{d}') || c == ' ' || c == '\u{85}' || c == '\u{a0}' || c == '\u{1680}'
        || ('\u{2000}' <= c && c <= '\u{200a}') || c == '\u{2028}' || c == '\u{2029}' || c == '\u{202f}'
        || c == '\u{205f}' || c == '\u{3000}'
}

/// `s` without leading and trailing whitespace.
pub fn trim(s: &str) -> (r: String)
    ensures
        r@ == trim_spec(s@),
{
    let v = chars_of(s);
    let mut i: usize = 0;
    proof {
        assert(s@.skip(0) =~= s@);
    }
    while i < v.len() && char_is_whitespace(v[i])
        invariant
            v@ == s@,
            i <= v.len(),
            trim_start_spec(s@) == trim_start_spec(s@.skip(i as int)),
        decreases v.len() - i,
    {
        proof {
            assert(s@.skip(i as int).drop_first() =~= s@.skip(i + 1));
        }
        i += 1;
    }
    let ghost t = s@.skip(i as int);
    proof {
        assert(trim_start_spec(t) == t);
        assert(trim_start_spec(s@) == t);
    }
    let mut j: usize = v.len();
    proof {
        assert(t.take(j - i) =~= t);
    }
    while j > i && char_is_whitespace(v[j - 1])
        invariant
            v@ == s@,
            i <= j <= v.len(),
            t == s@.skip(i as int),
            trim_end_spec(t) == trim_end_spec(t.take(j - i)),
        decreases j,
    {
        proof {
            assert(t.take(j - i).drop_last() =~= t.take(j - i - 1));
            assert(t.take(j - i).last() == v@[j - 1]);
        }
        j -= 1;
    }
    proof {
        if j > i {
            assert(t.take(j - i).last() == v@[j - 1]);
        }
        assert(trim_end_spec(t.take(j - i)) == t.take(j - i));
        assert(t.take(j - i) =~= v@.subrange(i as int, j as int));
    }
    string_from_range(v.as_slice(), i, j)
}


/// Whether `p` occurs in `s`.
pub open spec fn contains_spec(s: Seq<char>, p: Seq<char>) -> bool {
    exists|i: int| 0 <= i && i + p.len() <= s.len() && #[trigger] s.subrange(i, i + p.len()) == p
}

/// Whether `p` occurs in `s`, as `str::contains` tests it.
pub fn contains(s: &str, p: &str) -> (r: bool)
    ensures
        r == contains_spec(s@, p@),
{
    let sv = chars_of(s);
    let pv = chars_of(p);
    if pv.len() > sv.len() {
        return false;
    }
    let mut i: usize = 0;
    while i <= sv.len() - pv.len()
        invariant
            sv@ == s@,
            pv@ == p@,
            pv.len() <= sv.len(),
            i <= sv.len() - pv.len() + 1,
            forall|k: int| 0 <= k < i ==> #[trigger] s@.subrange(k, k + p@.len()) != p@,
        decreases sv.len() - i,
    {
        let mut j: usize = 0;
        while j < pv.len() && sv[i + j] == pv[j]
            invariant
                i + pv.len() <= sv.len(),
                j <= pv.len(),
                forall|m: int| 0 <= m < j ==> sv@[i + m] == pv@[m],
            decreases pv.len() - j,
        {
            j += 1;
        }
        if j == pv.len() {
            proof {
                assert(s@.subrange(i as int, i + p@.len()) =~= p@);
            }
            return true;
        }
        proof {
            assert(s@.subrange(i as int, i + p@.len())[j as int] != p@[j as int]);
        }
        i += 1;
    }
    proof {
        assert forall|k: int| 0 <= k && k + p@.len() <= s@.len() implies #[trigger] s@.subrange(k, k + p@.len())
            != p@ by {
            assert(k < i);
        }
    }
    false
}

} // verus!

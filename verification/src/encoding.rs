//! Text encodings of raw bytes: hexadecimal through the `hex` crate, base64
//! through the `base64` crate, and binary digits.

use vstd::prelude::*;

use crate::text::push_char;

verus! {

/// The lowercase hexadecimal digit of `n` (below 16).
pub open spec fn hex_digit(n: u8) -> char {
    if n < 10 {
        (48 + n) as char
    } else {
        (87 + n) as char
    }
}

/// Two lowercase hexadecimal digits per byte, most significant first.
pub open spec fn hex_lower(bytes: Seq<u8>) -> Seq<char>
    decreases bytes.len(),
{
    if bytes.len() == 0 {
        Seq::empty()
    } else {
        hex_lower(bytes.drop_last()) + seq![hex_digit(bytes.last() / 16), hex_digit(bytes.last() % 16)]
    }
}

/// The character of the standard base64 alphabet for `n` (below 64).
pub open spec fn base64_char(n: u8) -> char {
    if n < 26 {
        (65 + n) as char
    } else if n < 52 {
        (71 + n) as char
    } else if n < 62 {
        (n - 4) as char
    } else if n == 62 {
        '+'
    } else {
        '/'
    }
}

/// Standard base64 with padding: four characters per three bytes, the last
/// group padded with `=`.
pub open spec fn base64_standard(b: Seq<u8>) -> Seq<char>
    decreases b.len(),
{
    if b.len() == 0 {
        Seq::empty()
    } else if b.len() == 1 {
        seq![base64_char(b[0] / 4), base64_char(((b[0] % 4) * 16) as u8), '=', '=']
    } else if b.len() == 2 {
        seq![
            base64_char(b[0] / 4),
            base64_char(((b[0] % 4) * 16 + b[1] / 16) as u8),
            base64_char(((b[1] % 16) * 4) as u8),
            '=',
        ]
    } else {
        seq![
            base64_char(b[0] / 4),
            base64_char(((b[0] % 4) * 16 + b[1] / 16) as u8),
            base64_char(((b[1] % 16) * 4 + b[2] / 64) as u8),
            base64_char(b[2] % 64),
        ] + base64_standard(b.skip(3))
    }
}

/// The length of the base64 text of `n` bytes fits in a `usize`.
pub open spec fn base64_len_fits(n: nat) -> bool {
    (n / 3) * 4 + (if n % 3 > 0 { 4int } else { 0int }) <= usize::MAX
}

/// The bytes as lowercase hexadecimal.
/// Trusted: `hex::encode`, which writes two lowercase hexadecimal digits per
/// byte, in order.
#[verifier::external_body]
pub(crate) fn hex_encode(bytes: &[u8]) -> (s: String)
    ensures
        s@ == hex_lower(bytes@),
{
    hex::encode(bytes)
}

/// The bytes in standard base64 with padding.
/// Trusted: `base64::encode` (the `STANDARD` engine: the standard alphabet,
/// with `=` padding), which panics only when the length of its output does
/// not fit in a `usize`.
#[verifier::external_body]
#[allow(deprecated)]
pub(crate) fn base64_encode(bytes: &[u8]) -> (s: String)
    requires
        base64_len_fits(bytes@.len()),
    ensures
        s@ == base64_standard(bytes@),
{
    base64::encode(bytes)
}

/// The eight binary digits of `b`, most significant first.
pub open spec fn binary_digits(b: u8) -> Seq<char> {
    Seq::new(8, |i: int| if (b as int / pow2_int(7 - i)) % 2 == 1 { '1' } else { '0' })
}

/// `2` to the power `k`.
pub open spec fn pow2_int(k: int) -> int
    decreases k,
{
    if k <= 0 {
        1
    } else {
        2 * pow2_int(k - 1)
    }
}

/// The binary digits of each byte, with a space between bytes.
pub open spec fn binary_string(bytes: Seq<u8>) -> Seq<char>
    decreases bytes.len(),
{
    if bytes.len() == 0 {
        Seq::empty()
    } else if bytes.len() == 1 {
        binary_digits(bytes[0])
    } else {
        binary_string(bytes.drop_last()) + seq![' '] + binary_digits(bytes.last())
    }
}

/// Appends the eight binary digits of `b` to `s`.
fn push_binary(s: &mut String, b: u8)
    ensures
        final(s)@ == old(s)@ + binary_digits(b),
{
    let mut k: u8 = 0;
    let mut divisor: u8 = 128;
    proof {
        reveal_with_fuel(pow2_int, 8);
    }
    while k < 8
        invariant
            k <= 8,
            divisor >= 1,
            divisor as int == pow2_int(7 - k),
            s@ == old(s)@ + binary_digits(b).take(k as int),
        decreases 8 - k,
    {
        let bit = (b / divisor) % 2 == 1;
        push_char(s, if bit { '1' } else { '0' });
        proof {
            assert(binary_digits(b).take(k + 1) =~= binary_digits(b).take(k as int).push(
                if bit { '1' } else { '0' },
            ));
            if k < 7 {
                assert(pow2_int(7 - k) == 2 * pow2_int(7 - k - 1));
            }
        }
        if k < 7 {
            divisor = divisor / 2;
        }
        k += 1;
    }
    proof {
        assert(binary_digits(b).take(8) =~= binary_digits(b));
    }
}

/// The binary digits of each byte, eight per byte, joined by spaces.
pub fn to_binary_string(bytes: &[u8]) -> (s: String)
    ensures
        s@ == binary_string(bytes@),
{
    let mut s = String::new();
    let mut i: usize = 0;
    while i < bytes.len()
        invariant
            i <= bytes@.len(),
            s@ == binary_string(bytes@.take(i as int)),
        decreases bytes.len() - i,
    {
        proof {
            assert(bytes@.take(i + 1).drop_last() =~= bytes@.take(i as int));
        }
        if i > 0 {
            push_char(&mut s, ' ');
        }
        push_binary(&mut s, bytes[i]);
        i += 1;
    }
    proof {
        assert(bytes@.take(bytes@.len() as int) =~= bytes@);
    }
    s
}

} // verus!

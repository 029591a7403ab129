//! The wall clock, read through chrono.

use vstd::prelude::*;

verus! {

/// Milliseconds since the Unix epoch at the moment of the call.
/// Trusted: `chrono::Utc::now` followed by `DateTime::timestamp_millis`. The
/// value comes from the system clock, so nothing is stated of it.
#[verifier::external_body]
pub(crate) fn now_millis() -> (t: i64) {
    chrono::Utc::now().timestamp_millis()
}

/// The present moment as an RFC 3339 timestamp.
/// Trusted: `chrono::Utc::now` followed by `DateTime::to_rfc3339`. The value
/// comes from the system clock, so nothing is stated of it.
#[verifier::external_body]
pub(crate) fn now_rfc3339() -> (s: String) {
    chrono::Utc::now().to_rfc3339()
}

/// Seconds since the Unix epoch at the moment of the call.
/// Trusted: `chrono::Utc::now` followed by `DateTime::timestamp`. The value
/// comes from the system clock, so nothing is stated of it.
#[verifier::external_body]
pub(crate) fn now_seconds() -> (t: i64) {
    chrono::Utc::now().timestamp()
}

/// Whether `s` has the form of a `%Y%m%d_%H%M%S` stamp: digits, with `_`
/// seventh from the end, at least fifteen characters, and possibly a `+` in
/// front (chrono writes a year after 9999 with a sign and five or more
/// digits; up to 9999 the stamp is exactly `YYYYMMDD_HHMMSS`).
pub open spec fn is_compact_stamp(s: Seq<char>) -> bool {
    &&& s.len() >= 15
    &&& s[s.len() - 7] == '_'
    &&& forall|i: int|
        0 <= i < s.len() && i != s.len() - 7 ==> ('0' <= #[trigger] s[i] <= '9' || (i == 0 && s[i] == '+'))
}

/// The present moment as `YYYYMMDD_HHMMSS` in UTC.
/// Trusted: `chrono::Utc::now` followed by `DateTime::format` with
/// "%Y%m%d_%H%M%S", which writes the year (four digits up to 9999, a sign
/// and more digits after), then month, day, hour, minute and second as two
/// digits each, with `_` between date and time. Which moment it gives comes
/// from the system clock and is not stated.
#[verifier::external_body]
pub(crate) fn now_compact_stamp() -> (s: String)
    ensures
        is_compact_stamp(s@),
{
    chrono::Utc::now().format("%Y%m%d_%H%M%S").to_string()
}

} // verus!

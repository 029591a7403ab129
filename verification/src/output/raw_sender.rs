//! Raw flowmeter payloads written to a file for diagnosis, in one of four
//! formats.

use vstd::prelude::*;

use crate::devices::flowmeter::FlowmeterRawPayload;
use crate::text::{concat, decimal, decimal_string, owned, str_eq};

verus! {

/// How raw payloads are written.
#[derive(Debug, Clone, Copy, PartialEq, Eq, Structural)]
pub enum RawDataFormat {
    /// One line per payload with its hexadecimal text.
    Hex,
    /// The bytes themselves.
    Binary,
    /// JSON with the decoded values.
    Json,
    /// A detailed report.
    Debug,
}

/// The format a name selects: "hex", "binary", "json"; any other name
/// selects the detailed report.
pub open spec fn format_named(name: Seq<char>) -> RawDataFormat {
    if name == "hex"@ {
        RawDataFormat::Hex
    } else if name == "binary"@ {
        RawDataFormat::Binary
    } else if name == "json"@ {
        RawDataFormat::Json
    } else {
        RawDataFormat::Debug
    }
}

impl RawDataFormat {
    /// The format a name selects.
    pub fn from_name(name: &str) -> (f: Self)
        ensures
            f == format_named(name@),
    {
        if str_eq(name, "hex") {
            RawDataFormat::Hex
        } else if str_eq(name, "binary") {
            RawDataFormat::Binary
        } else if str_eq(name, "json") {
            RawDataFormat::Json
        } else {
            RawDataFormat::Debug
        }
    }
}

/// The text chrono gives for the UTC time `ms` milliseconds after the epoch
/// in the format "%Y-%m-%d %H:%M:%S%.3f", when chrono can represent that time.
pub uninterp spec fn utc_text_millis(ms: i64) -> Option<Seq<char>>;

/// The UTC time `ms` milliseconds after the epoch as "YYYY-MM-DD HH:MM:SS.mmm".
/// Trusted: `chrono::DateTime::from_timestamp_millis(ms)`, which gives `None`
/// for a time out of chrono's range, and `DateTime::format` with
/// "%Y-%m-%d %H:%M:%S%.3f". The text is a function of `ms` alone and is
/// named, not stated.
#[verifier::external_body]
fn format_utc_millis(ms: i64) -> (s: Option<String>)
    ensures
        match s {
            Some(t) => utc_text_millis(ms) == Some(t@),
            None => utc_text_millis(ms) is None,
        },
{
    match chrono::DateTime::from_timestamp_millis(ms) {
        Some(d) => Some(d.format("%Y-%m-%d %H:%M:%S%.3f").to_string()),
        None => None,
    }
}

/// Writes raw payloads to a file.
pub struct RawDataSender {
    file_path: String,
    format: RawDataFormat,
    append: bool,
}

/// The line a payload is written as in the hexadecimal format, its time
/// given as `stamp`.
pub open spec fn hex_line_text(p: FlowmeterRawPayload, stamp: Seq<char>) -> Seq<char> {
    stamp + " | Device "@ + decimal(p.device_address as nat) + " | Size: "@ + decimal(p.payload_size as nat)
        + " bytes | Hex: "@ + p.hex_string@ + "\n"@
}

/// The line of `payload` in the hexadecimal format, its time written as `stamp`.
pub fn hex_line_stamped(payload: &FlowmeterRawPayload, stamp: &str) -> (l: String)
    ensures
        l@ == hex_line_text(*payload, stamp@),
{
    let a = decimal_string(payload.device_address as u64);
    let n = decimal_string(payload.payload_size as u64);
    let s = concat(stamp, " | Device ");
    let s = concat(s.as_str(), a.as_str());
    let s = concat(s.as_str(), " | Size: ");
    let s = concat(s.as_str(), n.as_str());
    let s = concat(s.as_str(), " bytes | Hex: ");
    let s = concat(s.as_str(), payload.hex_string.as_str());
    concat(s.as_str(), "\n")
}

impl RawDataSender {
    pub closed spec fn spec_path(&self) -> Seq<char> {
        self.file_path@
    }

    pub closed spec fn spec_format(&self) -> RawDataFormat {
        self.format
    }

    pub closed spec fn spec_append(&self) -> bool {
        self.append
    }

    pub fn new(file_path: &str, format: RawDataFormat, append: bool) -> (s: Self)
        ensures
            s.spec_path() == file_path@,
            s.spec_format() == format,
            s.spec_append() == append,
    {
        RawDataSender { file_path: owned(file_path), format, append }
    }

    /// The format payloads are written in.
    pub fn format(&self) -> (f: RawDataFormat)
        ensures
            f == self.spec_format(),
    {
        self.format
    }

    /// Whether payloads are appended to the file rather than replacing it.
    pub fn appends(&self) -> (b: bool)
        ensures
            b == self.spec_append(),
    {
        self.append
    }

    /// The line of a payload in the hexadecimal format; `None` only when its
    /// time cannot be written.
    pub fn hex_line(&self, payload: &FlowmeterRawPayload) -> (l: Option<String>)
        ensures
            match utc_text_millis(payload.timestamp) {
                Some(t) => l matches Some(x) && x@ == hex_line_text(*payload, t),
                None => l is None,
            },
    {
        match format_utc_millis(payload.timestamp) {
            Some(stamp) => Some(hex_line_stamped(payload, stamp.as_str())),
            None => None,
        }
    }

    pub fn sender_type(&self) -> (s: &'static str)
        ensures
            s@ == "raw_data"@,
    {
        "raw_data"
    }

    pub fn destination(&self) -> (s: &str)
        ensures
            s@ == self.spec_path(),
    {
        self.file_path.as_str()
    }
}

} // verus!

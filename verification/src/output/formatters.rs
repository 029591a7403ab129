//! The text formats device readings are written in: console lines, JSON,
//! CSV and hexadecimal dumps. Each has a header line and a type name.

use vstd::prelude::*;

use crate::text::owned;

verus! {

/// Readable console lines.
pub struct ConsoleFormatter;

/// One JSON object per reading.
pub struct JsonFormatter;

/// Comma-separated values.
pub struct CsvFormatter;

/// The bit patterns of the values, in hexadecimal.
pub struct HexFormatter;

impl ConsoleFormatter {
    pub fn format_header(&self) -> (s: String)
        ensures
            s@ == "Device Data:"@,
    {
        owned("Device Data:")
    }

    pub fn formatter_type(&self) -> (s: &'static str)
        ensures
            s@ == "console"@,
    {
        "console"
    }
}

impl JsonFormatter {
    /// JSON lines have no header.
    pub fn format_header(&self) -> (s: String)
        ensures
            s@ == ""@,
    {
        owned("")
    }

    pub fn formatter_type(&self) -> (s: &'static str)
        ensures
            s@ == "json"@,
    {
        "json"
    }
}

impl CsvFormatter {
    /// The column names.
    pub fn format_header(&self) -> (s: String)
        ensures
            s@ == "Device,Timestamp,MassFlow,Temperature,Density,VolumeFlow,MassTotal,VolumeTotal,ErrorCode"@,
    {
        owned("Device,Timestamp,MassFlow,Temperature,Density,VolumeFlow,MassTotal,VolumeTotal,ErrorCode")
    }

    pub fn formatter_type(&self) -> (s: &'static str)
        ensures
            s@ == "csv"@,
    {
        "csv"
    }
}

impl HexFormatter {
    pub fn format_header(&self) -> (s: String)
        ensures
            s@ == "Hex Device Data:"@,
    {
        owned("Hex Device Data:")
    }

    pub fn formatter_type(&self) -> (s: &'static str)
        ensures
            s@ == "hex"@,
    {
        "hex"
    }
}

} // verus!

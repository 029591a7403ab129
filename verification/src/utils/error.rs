use vstd::prelude::*;

use crate::text::{concat, decimal, decimal_string};

verus! {

/// Errors of device communication, decoding, configuration and services.
#[derive(Debug, Clone, PartialEq, Eq)]
pub enum ModbusError {
    ConnectionError(String),
    CommunicationError(String),
    CrcError,
    InvalidResponse,
    InvalidData(String),
    InvalidDevice(u8),
    LockError,
    Timeout,
    DeviceNotFound(String),
    ConfigError(String),
    SerializationError(String),
    ServiceNotAvailable(String),
    InvalidState(String),
    FatalError(String),
}

/// The human-readable text of an error.
pub open spec fn error_message(e: ModbusError) -> Seq<char> {
    match e {
        ModbusError::ConnectionError(s) => "Connection error: "@ + s@,
        ModbusError::CommunicationError(s) => "Communication error: "@ + s@,
        ModbusError::CrcError => "CRC checksum mismatch"@,
        ModbusError::InvalidResponse => "Invalid response from device"@,
        ModbusError::InvalidData(s) => "Invalid data: "@ + s@,
        ModbusError::InvalidDevice(a) => "Device not found: address "@ + decimal(a as nat),
        ModbusError::LockError => "Lock acquisition failed"@,
        ModbusError::Timeout => "Timeout occurred"@,
        ModbusError::DeviceNotFound(s) => "Device not found: "@ + s@,
        ModbusError::ConfigError(s) => "Configuration error: "@ + s@,
        ModbusError::SerializationError(s) => "Serialization error: "@ + s@,
        ModbusError::ServiceNotAvailable(s) => "Service not available: "@ + s@,
        ModbusError::InvalidState(s) => "Invalid state: "@ + s@,
        ModbusError::FatalError(s) => "Fatal error: "@ + s@,
    }
}

impl ModbusError {
    /// The text of this error, as its `Display` form shows it.
    pub fn message(&self) -> (m: String)
        ensures
            m@ == error_message(*self),
    {
        match self {
            ModbusError::ConnectionError(s) => concat("Connection error: ", s.as_str()),
            ModbusError::CommunicationError(s) => concat("Communication error: ", s.as_str()),
            ModbusError::CrcError => String::from_str("CRC checksum mismatch"),
            ModbusError::InvalidResponse => String::from_str("Invalid response from device"),
            ModbusError::InvalidData(s) => concat("Invalid data: ", s.as_str()),
            ModbusError::InvalidDevice(a) => {
                let d = decimal_string(*a as u64);
                concat("Device not found: address ", d.as_str())
            },
            ModbusError::LockError => String::from_str("Lock acquisition failed"),
            ModbusError::Timeout => String::from_str("Timeout occurred"),
            ModbusError::DeviceNotFound(s) => concat("Device not found: ", s.as_str()),
            ModbusError::ConfigError(s) => concat("Configuration error: ", s.as_str()),
            ModbusError::SerializationError(s) => concat("Serialization error: ", s.as_str()),
            ModbusError::ServiceNotAvailable(s) => concat("Service not available: ", s.as_str()),
            ModbusError::InvalidState(s) => concat("Invalid state: ", s.as_str()),
            ModbusError::FatalError(s) => concat("Fatal error: ", s.as_str()),
        }
    }
}

} // verus!

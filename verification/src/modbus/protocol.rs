//! Requests and responses exchanged with the Modbus bus owner.
use vstd::prelude::*;

verus! {

/// A request queued for the bus, tagged with the component that asked for it.
#[derive(Debug, Clone)]
pub enum ModbusRequest {
    ReadHoldingRegisters { address: u8, start_register: u16, quantity: u16, requester: String },
    WriteSingleCoil { address: u8, coil_addr: u16, value: bool, requester: String },
}

/// The answer to a queued request: the data bytes, or an error message.
#[derive(Debug, Clone)]
pub enum ModbusResponse {
    Success(Vec<u8>),
    Error(String),
}

} // verus!

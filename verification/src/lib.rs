//! Industrial Modbus communication library: Modbus RTU framing, device
//! register decoding, configuration handling, telemetry payload building
//! and the system state machine, each with its contract.

pub mod bytes;
pub mod cli;
pub mod config;
pub mod devices;
pub mod encoding;
pub mod modbus;
pub mod output;
pub mod services;
pub mod storage;
pub mod text;
pub mod utils;

use vstd::prelude::*;

verus! {

/// Library version string.
pub const VERSION: &'static str = "1.0.0";

} // verus!

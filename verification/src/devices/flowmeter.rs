//! Mass flowmeters: the register block of a reading, its decoding into the
//! IEEE-754 bit patterns of the measured quantities, and the raw payload
//! kept for diagnosis.

use vstd::prelude::*;

use crate::bytes::{be32_at, read_be32};
use crate::encoding::{base64_encode, base64_len_fits, base64_standard, hex_encode, hex_lower};
use crate::text::{concat, decimal, decimal_string, owned};
use crate::utils::clock::{now_millis, now_seconds};
use crate::utils::error::ModbusError;

verus! {

/// The register numbers of the device's manual are one above the protocol's.
pub const FLOWMETER_REG_OFFSET_ADDR: u16 = 1;

/// Bytes of the register block a reading needs.
pub const FLOWMETER_MIN_BYTES: usize = 44;

/// A flowmeter on the bus.
#[derive(Debug, Clone)]
pub struct FlowmeterDevice {
    pub address: u8,
    pub name: String,
    pub start_register: u16,
    pub register_count: u16,
    pub reset_coil: u16,
}

/// A reading of a flowmeter. Each quantity is held as the IEEE-754 bit
/// pattern of the single-precision number the device sent.
#[derive(Debug, Clone, Copy, PartialEq, Eq, Structural)]
pub struct FlowmeterData {
    pub device_address: u8,
    /// When the reading was taken, in seconds since the Unix epoch.
    pub timestamp: i64,
    pub mass_flow_rate: u32,
    pub density_flow: u32,
    pub temperature: u32,
    pub volume_flow_rate: u32,
    pub mass_total: u32,
    pub volume_total: u32,
    pub mass_inventory: u32,
    pub volume_inventory: u32,
    pub error_code: u16,
}

/// The reading held in the register block `d`: 32-bit big-endian words at
/// byte offsets 0 (status), 4, 8, 12, 16, 28, 32, 36 and 40; the error code
/// is the low half of the status word.
pub open spec fn flowmeter_reading(address: u8, timestamp: i64, d: Seq<u8>) -> FlowmeterData {
    FlowmeterData {
        device_address: address,
        timestamp,
        mass_flow_rate: be32_at(d, 4),
        density_flow: be32_at(d, 8),
        temperature: be32_at(d, 12),
        volume_flow_rate: be32_at(d, 16),
        mass_total: be32_at(d, 28),
        volume_total: be32_at(d, 32),
        mass_inventory: be32_at(d, 36),
        volume_inventory: be32_at(d, 40),
        error_code: (be32_at(d, 0) % 65536) as u16,
    }
}

impl FlowmeterDevice {
    /// A flowmeter read from register 244 on (22 registers) and reset through
    /// coil 2.
    pub fn new(address: u8, name: String) -> (d: Self)
        ensures
            d.address == address,
            d.name == name,
            d.start_register == 244,
            d.register_count == 22,
            d.reset_coil == 2,
    {
        FlowmeterDevice {
            address,
            name,
            start_register: 245 - FLOWMETER_REG_OFFSET_ADDR,
            register_count: 22,
            reset_coil: 3 - FLOWMETER_REG_OFFSET_ADDR,
        }
    }

    /// The kind of device.
    pub fn device_type(&self) -> (t: &'static str)
        ensures
            t@ == "Flowmeter"@,
    {
        "Flowmeter"
    }

    /// Decodes a register block read at `timestamp`.
    pub fn parse_raw_data_at(&self, data: &[u8], timestamp: i64) -> (r: Result<FlowmeterData, ModbusError>)
        ensures
            data@.len() < 44 ==> (r matches Err(ModbusError::InvalidData(m)) && m@ == "Insufficient data length"@),
            data@.len() >= 44 ==> r == Ok::<FlowmeterData, ModbusError>(
                flowmeter_reading(self.address, timestamp, data@),
            ),
    {
        if data.len() < FLOWMETER_MIN_BYTES {
            return Err(ModbusError::InvalidData(owned("Insufficient data length")));
        }
        let status = read_be32(data, 0);
        Ok(
            FlowmeterData {
                device_address: self.address,
                timestamp,
                mass_flow_rate: read_be32(data, 4),
                density_flow: read_be32(data, 8),
                temperature: read_be32(data, 12),
                volume_flow_rate: read_be32(data, 16),
                mass_total: read_be32(data, 28),
                volume_total: read_be32(data, 32),
                mass_inventory: read_be32(data, 36),
                volume_inventory: read_be32(data, 40),
                error_code: (status % 65536) as u16,
            },
        )
    }

    /// Decodes a register block, stamped with the system clock.
    pub fn parse_raw_data(&self, data: &[u8]) -> (r: Result<FlowmeterData, ModbusError>)
        ensures
            data@.len() < 44 ==> (r matches Err(ModbusError::InvalidData(m)) && m@ == "Insufficient data length"@),
            data@.len() >= 44 ==> (r matches Ok(v) && v == flowmeter_reading(self.address, v.timestamp, data@)),
    {
        self.parse_raw_data_at(data, now_seconds())
    }
}

impl FlowmeterData {
    /// The kind of device.
    pub fn device_type(&self) -> (t: String)
        ensures
            t@ == "flowmeter"@,
    {
        owned("flowmeter")
    }

    /// "Device <address>".
    pub fn device_name(&self) -> (t: String)
        ensures
            t@ == "Device "@ + decimal(self.device_address as nat),
    {
        let a = decimal_string(self.device_address as u64);
        concat("Device ", a.as_str())
    }

    /// Where the device is: not recorded.
    pub fn device_location(&self) -> (t: String)
        ensures
            t@ == "Unknown"@,
    {
        owned("Unknown")
    }

    /// When the reading was taken, in seconds since the Unix epoch.
    pub fn unix_ts(&self) -> (t: i64)
        ensures
            t == self.timestamp,
    {
        self.timestamp
    }
}

/// The raw answer of a flowmeter, kept with its decoding for diagnosis.
#[derive(Debug, Clone)]
pub struct FlowmeterRawPayload {
    pub device_address: u8,
    /// When the payload was read, in milliseconds since the Unix epoch.
    pub timestamp: i64,
    pub raw_bytes: Vec<u8>,
    /// The bytes as lowercase hexadecimal.
    pub hex_string: String,
    pub payload_size: usize,
    pub register_count: u16,
    pub start_register: u16,
    pub error_code_raw: u32,
    pub mass_flow_rate_raw: u32,
    pub density_flow_raw: u32,
    pub temperature_raw: u32,
    pub volume_flow_rate_raw: u32,
    pub mass_total_raw: u32,
    pub volume_total_raw: u32,
    pub mass_inventory_raw: u32,
    pub volume_inventory_raw: u32,
}

/// `p` holds the raw payload `raw` of device `address`.
pub open spec fn raw_payload_of(
    p: FlowmeterRawPayload,
    address: u8,
    raw: Seq<u8>,
    start_register: u16,
    register_count: u16,
) -> bool {
    &&& p.device_address == address
    &&& p.raw_bytes@ == raw
    &&& p.hex_string@ == hex_lower(raw)
    &&& p.payload_size == raw.len()
    &&& p.register_count == register_count
    &&& p.start_register == start_register
    &&& p.error_code_raw == be32_at(raw, 0)
    &&& p.mass_flow_rate_raw == be32_at(raw, 4)
    &&& p.density_flow_raw == be32_at(raw, 8)
    &&& p.temperature_raw == be32_at(raw, 12)
    &&& p.volume_flow_rate_raw == be32_at(raw, 16)
    &&& p.mass_total_raw == be32_at(raw, 28)
    &&& p.volume_total_raw == be32_at(raw, 32)
    &&& p.mass_inventory_raw == be32_at(raw, 36)
    &&& p.volume_inventory_raw == be32_at(raw, 40)
}

/// The text of a payload that is too short.
pub open spec fn raw_too_short_text(n: nat) -> Seq<char> {
    "Insufficient raw data: "@ + decimal(n) + " bytes"@
}

/// The one-line summary of a payload: at most 32 hexadecimal digits, with
/// "..." when there are more.
pub open spec fn raw_summary(p: FlowmeterRawPayload) -> Seq<char> {
    "FlowmeterRaw["@ + decimal(p.device_address as nat) + "]: "@ + decimal(p.payload_size as nat) + " bytes, Hex: "@
        + if p.hex_string@.len() > 32 {
        p.hex_string@.take(32) + "..."@
    } else {
        p.hex_string@
    }
}

/// The whole second, counted from the Unix epoch, of a time given in
/// milliseconds: the floor of `ms / 1000`.
fn whole_seconds(ms: i64) -> (s: i64)
    ensures
        s == ms / 1000,
{
    if ms >= 0 {
        ms / 1000
    } else {
        let q = (-(ms + 1)) / 1000;
        proof {
            let m = ms as int;
            assert(-(m + 1) == 1000 * q + (-(m + 1)) % 1000) by (nonlinear_arith)
                requires q == (-(m + 1)) / 1000, -(m + 1) >= 0;
            assert(m == 1000 * (-(q + 1)) + (999 - (-(m + 1)) % 1000));
            vstd::arithmetic::div_mod::lemma_fundamental_div_mod_converse(m, 1000, -(q + 1), 999 - (-(m + 1)) % 1000);
        }
        -(q + 1)
    }
}

impl FlowmeterRawPayload {
    /// The payload of `raw_bytes` read at `timestamp` (milliseconds since the
    /// Unix epoch).
    pub fn new_at(
        device_address: u8,
        raw_bytes: Vec<u8>,
        start_register: u16,
        register_count: u16,
        timestamp: i64,
    ) -> (r: Result<Self, ModbusError>)
        ensures
            raw_bytes@.len() < 44 ==> (r matches Err(ModbusError::InvalidData(m)) && m@ == raw_too_short_text(
                raw_bytes@.len(),
            )),
            raw_bytes@.len() >= 44 ==> (r matches Ok(p) && raw_payload_of(
                p,
                device_address,
                raw_bytes@,
                start_register,
                register_count,
            ) && p.timestamp == timestamp),
    {
        if raw_bytes.len() < FLOWMETER_MIN_BYTES {
            let n = decimal_string(raw_bytes.len() as u64);
            let m = concat("Insufficient raw data: ", n.as_str());
            return Err(ModbusError::InvalidData(concat(m.as_str(), " bytes")));
        }
        let hex_string = hex_encode(raw_bytes.as_slice());
        let payload_size = raw_bytes.len();
        let error_code_raw = read_be32(raw_bytes.as_slice(), 0);
        let mass_flow_rate_raw = read_be32(raw_bytes.as_slice(), 4);
        let density_flow_raw = read_be32(raw_bytes.as_slice(), 8);
        let temperature_raw = read_be32(raw_bytes.as_slice(), 12);
        let volume_flow_rate_raw = read_be32(raw_bytes.as_slice(), 16);
        let mass_total_raw = read_be32(raw_bytes.as_slice(), 28);
        let volume_total_raw = read_be32(raw_bytes.as_slice(), 32);
        let mass_inventory_raw = read_be32(raw_bytes.as_slice(), 36);
        let volume_inventory_raw = read_be32(raw_bytes.as_slice(), 40);
        Ok(
            FlowmeterRawPayload {
                device_address,
                timestamp,
                raw_bytes,
                hex_string,
                payload_size,
                register_count,
                start_register,
                error_code_raw,
                mass_flow_rate_raw,
                density_flow_raw,
                temperature_raw,
                volume_flow_rate_raw,
                mass_total_raw,
                volume_total_raw,
                mass_inventory_raw,
                volume_inventory_raw,
            },
        )
    }

    /// The payload of `raw_bytes`, stamped with the system clock.
    pub fn new(device_address: u8, raw_bytes: Vec<u8>, start_register: u16, register_count: u16) -> (r: Result<
        Self,
        ModbusError,
    >)
        ensures
            raw_bytes@.len() < 44 ==> (r matches Err(ModbusError::InvalidData(m)) && m@ == raw_too_short_text(
                raw_bytes@.len(),
            )),
            raw_bytes@.len() >= 44 ==> (r matches Ok(p) && raw_payload_of(
                p,
                device_address,
                raw_bytes@,
                start_register,
                register_count,
            )),
    {
        Self::new_at(device_address, raw_bytes, start_register, register_count, now_millis())
    }

    /// The reading the raw values stand for, stamped with the whole second
    /// of the payload's time.
    pub fn to_engineering_units(&self) -> (d: FlowmeterData)
        ensures
            d == (FlowmeterData {
                device_address: self.device_address,
                timestamp: (self.timestamp / 1000) as i64,
                mass_flow_rate: self.mass_flow_rate_raw,
                density_flow: self.density_flow_raw,
                temperature: self.temperature_raw,
                volume_flow_rate: self.volume_flow_rate_raw,
                mass_total: self.mass_total_raw,
                volume_total: self.volume_total_raw,
                mass_inventory: self.mass_inventory_raw,
                volume_inventory: self.volume_inventory_raw,
                error_code: (self.error_code_raw % 65536) as u16,
            }),
    {
        let seconds = whole_seconds(self.timestamp);
        FlowmeterData {
            device_address: self.device_address,
            timestamp: seconds,
            mass_flow_rate: self.mass_flow_rate_raw,
            density_flow: self.density_flow_raw,
            temperature: self.temperature_raw,
            volume_flow_rate: self.volume_flow_rate_raw,
            mass_total: self.mass_total_raw,
            volume_total: self.volume_total_raw,
            mass_inventory: self.mass_inventory_raw,
            volume_inventory: self.volume_inventory_raw,
            error_code: (self.error_code_raw % 65536) as u16,
        }
    }

    /// A link to an online decoder of the hexadecimal text.
    pub fn get_decoder_url(&self) -> (u: String)
        ensures
            u@ == "https://www.rapidtables.com/convert/number/hex-to-decimal.html?x="@ + self.hex_string@,
    {
        concat("https://www.rapidtables.com/convert/number/hex-to-decimal.html?x=", self.hex_string.as_str())
    }

    /// The raw bytes in standard base64.
    pub fn to_base64(&self) -> (s: String)
        requires
            base64_len_fits(self.raw_bytes@.len()),
        ensures
            s@ == base64_standard(self.raw_bytes@),
    {
        base64_encode(self.raw_bytes.as_slice())
    }

    /// The raw bytes as binary digits, eight per byte, joined by spaces.
    pub fn to_binary_string(&self) -> (s: String)
        ensures
            s@ == crate::encoding::binary_string(self.raw_bytes@),
    {
        crate::encoding::to_binary_string(self.raw_bytes.as_slice())
    }

    /// The one-line summary of the payload.
    pub fn to_string(&self) -> (s: String)
        ensures
            s@ == raw_summary(*self),
    {
        let a = decimal_string(self.device_address as u64);
        let n = decimal_string(self.payload_size as u64);
        let s = concat("FlowmeterRaw[", a.as_str());
        let s = concat(s.as_str(), "]: ");
        let s = concat(s.as_str(), n.as_str());
        let s = concat(s.as_str(), " bytes, Hex: ");
        let hex_len = self.hex_string.unicode_len();
        if hex_len > 32 {
            let head = self.hex_string.as_str().substring_char(0, 32);
            let s = concat(s.as_str(), head);
            let r = concat(s.as_str(), "...");
            proof {
                assert(r@ =~= raw_summary(*self));
            }
            r
        } else {
            let r = concat(s.as_str(), self.hex_string.as_str());
            proof {
                assert(r@ =~= raw_summary(*self));
            }
            r
        }
    }
}

} // verus!

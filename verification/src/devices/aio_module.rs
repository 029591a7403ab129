//! The analog/digital I/O module: four RPM sensor channels and sixteen
//! digital inputs, read as 39 holding registers from register 1 on.

use vstd::prelude::*;

use crate::bytes::{be16_at, be32_at, read_be16, read_be32};
use crate::config::settings::pair_views;
use crate::text::{
    bool_string, bool_text, concat, decimal, decimal_string, owned, parse_u8, parse_unsigned,
    parse_unsigned_max, split_once, split_once_spec, str_eq, strip_prefix, strip_prefix_spec,
};
use crate::utils::clock::now_seconds;
use crate::utils::error::ModbusError;

verus! {

/// First holding register of the module's data block.
pub const AIO_FIRST_REGISTER: u16 = 0x0001;
/// Number of holding registers in the module's data block.
pub const AIO_REGISTER_COUNT: u16 = 39;
/// Bytes of the data block: two per register.
pub const AIO_RESPONSE_BYTES: usize = 78;

/// An I/O module on the bus.
#[derive(Debug, Clone)]
pub struct AioModuleDevice {
    pub address: u8,
    pub name: String,
    pub location: String,
    pub update_interval_seconds: u64,
    pub timeout_ms: u64,
    pub channels: Vec<AioChannelConfig>,
}

/// The configuration of one channel of the module.
#[derive(Debug, Clone)]
pub struct AioChannelConfig {
    pub channel_id: u8,
    pub channel_name: String,
    /// "rpm", "pulse" or "frequency".
    pub channel_type: String,
    pub enabled: bool,
}

/// One reading of the module.
#[derive(Debug, Clone)]
pub struct AioModuleData {
    pub device_address: u8,
    pub device_name: String,
    pub device_location: String,
    /// When the reading was taken, in seconds since the Unix epoch.
    pub timestamp: i64,
    pub baud_rate: u16,
    pub channels: Vec<AioChannelData>,
    /// Digital inputs 1 to 16.
    pub digital_inputs: Vec<bool>,
}

/// The values of one sensor channel.
#[derive(Debug, Clone, Copy, PartialEq, Eq, Structural)]
pub struct AioChannelData {
    pub channel_id: u8,
    pub pulse_count: u16,
    pub threshold: u16,
    pub frequency: u16,
    pub rpm_value: u16,
    pub average_value: u16,
    /// Engine running time in RPM mode.
    pub duration_rpm: u32,
    /// Auxiliary engine running time.
    pub duration_ae: u32,
}

/// The name given to channel `i` by default.
pub open spec fn default_channel_name(i: int) -> Seq<char> {
    "Channel "@ + decimal(i as nat)
}

/// Channel `y` (0 to 3) of a data block: each quantity has its own run of
/// registers, one register (two for the durations) per channel.
pub open spec fn aio_channel(d: Seq<u8>, y: int) -> AioChannelData {
    AioChannelData {
        channel_id: (y + 1) as u8,
        pulse_count: be16_at(d, 2 + 2 * y),
        threshold: be16_at(d, 10 + 2 * y),
        frequency: be16_at(d, 18 + 2 * y),
        rpm_value: be16_at(d, 26 + 2 * y),
        average_value: be16_at(d, 34 + 2 * y),
        duration_rpm: be32_at(d, 46 + 4 * y),
        duration_ae: be32_at(d, 62 + 4 * y),
    }
}

/// Digital input `j` (0 to 15) of the input word: bit `j`.
pub open spec fn din_bit(word: u16, j: int) -> bool {
    (word >> (j as u16)) & 1u16 == 1u16
}

/// The text of a data block that is too short.
pub open spec fn aio_too_short_text(n: nat) -> Seq<char> {
    "AIO module response too short: expected 78 bytes, got "@ + decimal(n)
}

/// `d` is what the data block `raw` of module `dev` holds.
pub open spec fn aio_decoded(d: AioModuleData, dev: AioModuleDevice, raw: Seq<u8>) -> bool {
    &&& d.device_address == dev.address
    &&& d.device_name@ == dev.name@
    &&& d.device_location@ == dev.location@
    &&& d.baud_rate == be16_at(raw, 0)
    &&& d.channels@ == Seq::new(4, |y: int| aio_channel(raw, y))
    &&& d.digital_inputs@ == Seq::new(16, |j: int| din_bit(be16_at(raw, 42), j))
}

impl AioModuleDevice {
    /// A module with the default configuration: four enabled RPM channels
    /// named "Channel 1" to "Channel 4".
    pub fn new(address: u8, name: String, location: String, update_interval_seconds: u64, timeout_ms: u64) -> (d: Self)
        ensures
            d.address == address,
            d.name == name,
            d.location == location,
            d.update_interval_seconds == update_interval_seconds,
            d.timeout_ms == timeout_ms,
            d.channels@.len() == 4,
            forall|i: int| #![trigger d.channels@[i]] 0 <= i < 4 ==> d.channels@[i].channel_id == i + 1
                && d.channels@[i].channel_name@ == default_channel_name(i + 1) && d.channels@[i].channel_type@
                == "rpm"@ && d.channels@[i].enabled,
    {
        let mut channels: Vec<AioChannelConfig> = Vec::new();
        let mut i: u8 = 1;
        while i <= 4
            invariant
                1 <= i <= 5,
                channels@.len() == i - 1,
                forall|k: int| #![trigger channels@[k]] 0 <= k < i - 1 ==> channels@[k].channel_id == k + 1
                    && channels@[k].channel_name@ == default_channel_name(k + 1) && channels@[k].channel_type@
                    == "rpm"@ && channels@[k].enabled,
            decreases 5 - i,
        {
            let number = decimal_string(i as u64);
            channels.push(
                AioChannelConfig {
                    channel_id: i,
                    channel_name: concat("Channel ", number.as_str()),
                    channel_type: owned("rpm"),
                    enabled: true,
                },
            );
            i += 1;
        }
        AioModuleDevice { address, name, location, update_interval_seconds, timeout_ms, channels }
    }

    /// This module with `channels` in place of its channel configuration.
    pub fn with_channels(self, channels: Vec<AioChannelConfig>) -> (d: Self)
        ensures
            d == (AioModuleDevice { channels, ..self }),
    {
        AioModuleDevice { channels, ..self }
    }

    /// The kind of device.
    pub fn device_type(&self) -> (t: &'static str)
        ensures
            t@ == "aio"@,
    {
        "aio"
    }

    /// Decodes a data block read at `timestamp`.
    pub fn parse_raw_data_at(&self, raw: &[u8], timestamp: i64) -> (r: Result<AioModuleData, ModbusError>)
        ensures
            raw@.len() < 78 ==> (r matches Err(ModbusError::InvalidData(m)) && m@ == aio_too_short_text(
                raw@.len(),
            )),
            raw@.len() >= 78 ==> (r matches Ok(d) && aio_decoded(d, *self, raw@) && d.timestamp == timestamp),
    {
        if raw.len() < AIO_RESPONSE_BYTES {
            let n = decimal_string(raw.len() as u64);
            return Err(
                ModbusError::InvalidData(concat("AIO module response too short: expected 78 bytes, got ", n.as_str())),
            );
        }
        let baud_rate = read_be16(raw, 0);
        let mut channels: Vec<AioChannelData> = Vec::new();
        let mut y: usize = 0;
        while y < 4
            invariant
                raw@.len() >= 78,
                y <= 4,
                channels@ == Seq::new(y as nat, |k: int| aio_channel(raw@, k)),
            decreases 4 - y,
        {
            let ch = AioChannelData {
                channel_id: (y + 1) as u8,
                pulse_count: read_be16(raw, 2 + 2 * y),
                threshold: read_be16(raw, 10 + 2 * y),
                frequency: read_be16(raw, 18 + 2 * y),
                rpm_value: read_be16(raw, 26 + 2 * y),
                average_value: read_be16(raw, 34 + 2 * y),
                duration_rpm: read_be32(raw, 46 + 4 * y),
                duration_ae: read_be32(raw, 62 + 4 * y),
            };
            channels.push(ch);
            proof {
                assert(channels@ =~= Seq::new((y + 1) as nat, |k: int| aio_channel(raw@, k)));
            }
            y += 1;
        }
        let din_word = read_be16(raw, 42);
        let mut digital_inputs: Vec<bool> = Vec::new();
        let mut j: u16 = 0;
        while j < 16
            invariant
                j <= 16,
                digital_inputs@ == Seq::new(j as nat, |k: int| din_bit(din_word, k)),
            decreases 16 - j,
        {
            digital_inputs.push((din_word >> j) & 1u16 == 1u16);
            proof {
                assert(digital_inputs@ =~= Seq::new((j + 1) as nat, |k: int| din_bit(din_word, k)));
            }
            j += 1;
        }
        Ok(
            AioModuleData {
                device_address: self.address,
                device_name: self.name.clone(),
                device_location: self.location.clone(),
                timestamp,
                baud_rate,
                channels,
                digital_inputs,
            },
        )
    }

    /// Decodes a data block, stamped with the system clock.
    pub fn parse_raw_data(&self, raw: &[u8]) -> (r: Result<AioModuleData, ModbusError>)
        ensures
            raw@.len() < 78 ==> (r matches Err(ModbusError::InvalidData(m)) && m@ == aio_too_short_text(
                raw@.len(),
            )),
            raw@.len() >= 78 ==> (r matches Ok(d) && aio_decoded(d, *self, raw@)),
    {
        self.parse_raw_data_at(raw, now_seconds())
    }
}

/// The first channel numbered `id`.
pub open spec fn find_channel(chs: Seq<AioChannelData>, id: u8) -> Option<AioChannelData>
    decreases chs.len(),
{
    if chs.len() == 0 {
        None
    } else if chs[0].channel_id == id {
        Some(chs[0])
    } else {
        find_channel(chs.drop_first(), id)
    }
}

/// The value of the field `field` of a channel, as text.
pub open spec fn channel_field(c: AioChannelData, field: Seq<char>) -> Option<Seq<char>> {
    if field == "pulse"@ {
        Some(decimal(c.pulse_count as nat))
    } else if field == "threshold"@ {
        Some(decimal(c.threshold as nat))
    } else if field == "frequency"@ {
        Some(decimal(c.frequency as nat))
    } else if field == "rpm"@ {
        Some(decimal(c.rpm_value as nat))
    } else if field == "average"@ {
        Some(decimal(c.average_value as nat))
    } else if field == "duration_rpm"@ {
        Some(decimal(c.duration_rpm as nat))
    } else if field == "duration_ae"@ {
        Some(decimal(c.duration_ae as nat))
    } else {
        None
    }
}

/// The answer to a name of the form `ch<id>_<field>` whose channel exists
/// (`Some(answer)`), or `None` when the name is not of that form or names no
/// channel.
pub open spec fn channel_parameter(d: AioModuleData, name: Seq<char>) -> Option<Option<Seq<char>>> {
    match strip_prefix_spec(name, "ch"@) {
        Some(rest) => match split_once_spec(rest, '_') {
            Some((num, field)) => match parse_unsigned(num, 255) {
                Some(n) => match find_channel(d.channels@, n as u8) {
                    Some(c) => Some(channel_field(c, field)),
                    None => None,
                },
                None => None,
            },
            None => None,
        },
        None => None,
    }
}

/// The answer to a name of the form `din<n>`.
pub open spec fn din_parameter(d: AioModuleData, name: Seq<char>) -> Option<Seq<char>> {
    match strip_prefix_spec(name, "din"@) {
        Some(rest) => match parse_unsigned(rest, usize::MAX as nat) {
            Some(n) => if 1 <= n <= d.digital_inputs@.len() {
                Some(bool_text(d.digital_inputs@[n - 1]))
            } else {
                None
            },
            None => None,
        },
        None => None,
    }
}

/// The value of the parameter `name` of a reading, as text.
pub open spec fn aio_parameter(d: AioModuleData, name: Seq<char>) -> Option<Seq<char>> {
    if name == "baud_rate"@ {
        Some(decimal(d.baud_rate as nat))
    } else if name == "device_name"@ {
        Some(d.device_name@)
    } else if name == "device_location"@ {
        Some(d.device_location@)
    } else if name == "channel_count"@ {
        Some(decimal(d.channels@.len()))
    } else if name == "digital_input_count"@ {
        Some(decimal(d.digital_inputs@.len()))
    } else {
        match channel_parameter(d, name) {
            Some(v) => v,
            None => din_parameter(d, name),
        }
    }
}

/// The parameters of one channel, named after it.
pub open spec fn channel_parameters(c: AioChannelData) -> Seq<(Seq<char>, Seq<char>)> {
    let p = "ch"@ + decimal(c.channel_id as nat);
    seq![
        (p + "_pulse"@, decimal(c.pulse_count as nat)),
        (p + "_threshold"@, decimal(c.threshold as nat)),
        (p + "_frequency"@, decimal(c.frequency as nat)),
        (p + "_rpm"@, decimal(c.rpm_value as nat)),
        (p + "_average"@, decimal(c.average_value as nat)),
        (p + "_duration_rpm"@, decimal(c.duration_rpm as nat)),
        (p + "_duration_ae"@, decimal(c.duration_ae as nat)),
    ]
}

/// The parameters of all channels, channel by channel.
pub open spec fn all_channel_parameters(chs: Seq<AioChannelData>) -> Seq<(Seq<char>, Seq<char>)>
    decreases chs.len(),
{
    if chs.len() == 0 {
        Seq::empty()
    } else {
        all_channel_parameters(chs.drop_last()) + channel_parameters(chs.last())
    }
}

/// Every parameter of a reading, in order: the device's, the channels', then
/// the digital inputs'.
pub open spec fn aio_all_parameters(d: AioModuleData) -> Seq<(Seq<char>, Seq<char>)> {
    seq![
        ("baud_rate"@, decimal(d.baud_rate as nat)),
        ("device_name"@, d.device_name@),
        ("device_location"@, d.device_location@),
        ("channel_count"@, decimal(d.channels@.len())),
        ("digital_input_count"@, decimal(d.digital_inputs@.len())),
    ] + all_channel_parameters(d.channels@) + Seq::new(
        d.digital_inputs@.len(),
        |i: int| ("din"@ + decimal((i + 1) as nat), bool_text(d.digital_inputs@[i])),
    )
}

/// Appends the pair `(k, v)` to `out`.
pub fn push_pair(out: &mut Vec<(String, String)>, k: String, v: String)
    ensures
        pair_views(final(out)@) == pair_views(old(out)@).push((k@, v@)),
{
    out.push((k, v));
    proof {
        assert(pair_views(final(out)@) =~= pair_views(old(out)@).push((k@, v@)));
    }
}

/// `a` followed by `b`, as a new string.
fn join(a: &str, b: &str) -> (r: String)
    ensures
        r@ == a@ + b@,
{
    concat(a, b)
}

impl AioChannelData {
    /// The value of the field `field`, as text.
    fn field_text(&self, field: &str) -> (r: Option<String>)
        ensures
            match channel_field(*self, field@) {
                Some(t) => r matches Some(x) && x@ == t,
                None => r is None,
            },
    {
        if str_eq(field, "pulse") {
            Some(decimal_string(self.pulse_count as u64))
        } else if str_eq(field, "threshold") {
            Some(decimal_string(self.threshold as u64))
        } else if str_eq(field, "frequency") {
            Some(decimal_string(self.frequency as u64))
        } else if str_eq(field, "rpm") {
            Some(decimal_string(self.rpm_value as u64))
        } else if str_eq(field, "average") {
            Some(decimal_string(self.average_value as u64))
        } else if str_eq(field, "duration_rpm") {
            Some(decimal_string(self.duration_rpm as u64))
        } else if str_eq(field, "duration_ae") {
            Some(decimal_string(self.duration_ae as u64))
        } else {
            None
        }
    }

    /// The parameters of this channel.
    fn push_parameters(&self, out: &mut Vec<(String, String)>)
        ensures
            pair_views(final(out)@) == pair_views(old(out)@) + channel_parameters(*self),
    {
        let id = decimal_string(self.channel_id as u64);
        let p = concat("ch", id.as_str());
        push_pair(out, join(p.as_str(), "_pulse"), decimal_string(self.pulse_count as u64));
        push_pair(out, join(p.as_str(), "_threshold"), decimal_string(self.threshold as u64));
        push_pair(out, join(p.as_str(), "_frequency"), decimal_string(self.frequency as u64));
        push_pair(out, join(p.as_str(), "_rpm"), decimal_string(self.rpm_value as u64));
        push_pair(out, join(p.as_str(), "_average"), decimal_string(self.average_value as u64));
        push_pair(out, join(p.as_str(), "_duration_rpm"), decimal_string(self.duration_rpm as u64));
        push_pair(out, join(p.as_str(), "_duration_ae"), decimal_string(self.duration_ae as u64));
        proof {
            assert(pair_views(final(out)@) =~= pair_views(old(out)@) + channel_parameters(*self));
        }
    }
}

impl AioModuleData {
    /// The first channel numbered `id`.
    fn channel_by_id(&self, id: u8) -> (r: Option<AioChannelData>)
        ensures
            r == find_channel(self.channels@, id),
    {
        let mut i: usize = 0;
        proof {
            assert(self.channels@.skip(0) =~= self.channels@);
        }
        while i < self.channels.len()
            invariant
                i <= self.channels@.len(),
                find_channel(self.channels@, id) == find_channel(self.channels@.skip(i as int), id),
            decreases self.channels.len() - i,
        {
            proof {
                assert(self.channels@.skip(i as int).drop_first() =~= self.channels@.skip(i + 1));
            }
            if self.channels[i].channel_id == id {
                return Some(self.channels[i]);
            }
            i += 1;
        }
        None
    }

    /// The answer to a name of the form `ch<id>_<field>`.
    fn channel_parameter(&self, name: &str) -> (r: Option<Option<String>>)
        ensures
            match channel_parameter(*self, name@) {
                Some(Some(t)) => r matches Some(Some(x)) && x@ == t,
                Some(None) => r matches Some(None),
                None => r is None,
            },
    {
        let rest = match strip_prefix(name, "ch") {
            Some(rest) => rest,
            None => return None,
        };
        let (num, field) = match split_once(rest.as_str(), '_') {
            Some(parts) => parts,
            None => return None,
        };
        let n = match parse_u8(num.as_str()) {
            Some(n) => n,
            None => return None,
        };
        match self.channel_by_id(n) {
            Some(c) => Some(c.field_text(field.as_str())),
            None => None,
        }
    }

    /// The answer to a name of the form `din<n>`.
    fn din_parameter(&self, name: &str) -> (r: Option<String>)
        ensures
            match din_parameter(*self, name@) {
                Some(t) => r matches Some(x) && x@ == t,
                None => r is None,
            },
    {
        let rest = match strip_prefix(name, "din") {
            Some(rest) => rest,
            None => return None,
        };
        let n = match parse_unsigned_max(rest.as_str(), usize::MAX as u64) {
            Some(n) => n as usize,
            None => return None,
        };
        if n > 0 && n <= self.digital_inputs.len() {
            Some(bool_string(self.digital_inputs[n - 1]))
        } else {
            None
        }
    }

    /// The value of the parameter `name`, as text.
    pub fn get_parameter(&self, name: &str) -> (r: Option<String>)
        ensures
            match aio_parameter(*self, name@) {
                Some(t) => r matches Some(x) && x@ == t,
                None => r is None,
            },
    {
        if str_eq(name, "baud_rate") {
            Some(decimal_string(self.baud_rate as u64))
        } else if str_eq(name, "device_name") {
            Some(self.device_name.clone())
        } else if str_eq(name, "device_location") {
            Some(self.device_location.clone())
        } else if str_eq(name, "channel_count") {
            Some(decimal_string(self.channels.len() as u64))
        } else if str_eq(name, "digital_input_count") {
            Some(decimal_string(self.digital_inputs.len() as u64))
        } else {
            match self.channel_parameter(name) {
                Some(v) => v,
                None => self.din_parameter(name),
            }
        }
    }

    /// Every parameter, as name and text.
    pub fn get_all_parameters(&self) -> (r: Vec<(String, String)>)
        ensures
            pair_views(r@) == aio_all_parameters(*self),
    {
        let mut out: Vec<(String, String)> = Vec::new();
        push_pair(&mut out, owned("baud_rate"), decimal_string(self.baud_rate as u64));
        push_pair(&mut out, owned("device_name"), self.device_name.clone());
        push_pair(&mut out, owned("device_location"), self.device_location.clone());
        push_pair(&mut out, owned("channel_count"), decimal_string(self.channels.len() as u64));
        push_pair(&mut out, owned("digital_input_count"), decimal_string(self.digital_inputs.len() as u64));
        let ghost base = pair_views(out@);
        let mut i: usize = 0;
        while i < self.channels.len()
            invariant
                i <= self.channels@.len(),
                pair_views(out@) == base + all_channel_parameters(self.channels@.take(i as int)),
            decreases self.channels.len() - i,
        {
            self.channels[i].push_parameters(&mut out);
            proof {
                assert(self.channels@.take(i + 1).drop_last() =~= self.channels@.take(i as int));
            }
            i += 1;
        }
        proof {
            assert(self.channels@.take(self.channels@.len() as int) =~= self.channels@);
        }
        let ghost with_channels = pair_views(out@);
        let mut j: usize = 0;
        while j < self.digital_inputs.len()
            invariant
                j <= self.digital_inputs@.len(),
                pair_views(out@) == with_channels + Seq::new(
                    j as nat,
                    |k: int| ("din"@ + decimal((k + 1) as nat), bool_text(self.digital_inputs@[k])),
                ),
            decreases self.digital_inputs.len() - j,
        {
            let number = decimal_string((j + 1) as u64);
            push_pair(&mut out, concat("din", number.as_str()), bool_string(self.digital_inputs[j]));
            proof {
                assert(pair_views(out@) =~= with_channels + Seq::new(
                    (j + 1) as nat,
                    |k: int| ("din"@ + decimal((k + 1) as nat), bool_text(self.digital_inputs@[k])),
                ));
            }
            j += 1;
        }
        proof {
            assert(pair_views(out@) =~= aio_all_parameters(*self));
        }
        out
    }

    /// The kind of device.
    pub fn device_type(&self) -> (t: String)
        ensures
            t@ == "aio"@,
    {
        owned("aio")
    }

    /// The address of the device that was read.
    pub fn device_address(&self) -> (a: u8)
        ensures
            a == self.device_address,
    {
        self.device_address
    }

    /// When the reading was taken, in seconds since the Unix epoch.
    pub fn unix_ts(&self) -> (t: i64)
        ensures
            t == self.timestamp,
    {
        self.timestamp
    }
}

/// The big-endian 16-bit word at byte `i` of `raw`.
pub open spec fn word16(raw: Seq<u8>, i: int) -> int {
    raw[i] as int * 256 + raw[i + 1] as int
}

/// The big-endian 32-bit word at byte `i` of `raw`.
pub open spec fn word32(raw: Seq<u8>, i: int) -> int {
    raw[i] as int * 16777216 + raw[i + 1] as int * 65536 + raw[i + 2] as int * 256 + raw[i + 3] as int
}

/// The register layout of a decoded block (39 registers from register 1, two
/// bytes each): channel `y` (0 to 3) reads its pulse count, threshold,
/// frequency, RPM and average from the words at bytes 2, 10, 18, 26 and 34
/// plus `2y`, its RPM running time from the double word at byte `46 + 4y`
/// (registers 24 to 31) and its auxiliary-engine running time from the double
/// word at byte `62 + 4y` (registers 32 to 39); the baud rate is the word at
/// byte 0 and digital input `j` is bit `j` of the word at byte 42.
pub proof fn lemma_aio_register_layout(d: AioModuleData, dev: AioModuleDevice, raw: Seq<u8>, y: int, j: int)
    requires
        aio_decoded(d, dev, raw),
        raw.len() >= 78,
        0 <= y < 4,
        0 <= j < 16,
    ensures
        d.channels@.len() == 4,
        d.digital_inputs@.len() == 16,
        d.baud_rate == word16(raw, 0),
        d.channels@[y].channel_id == y + 1,
        d.channels@[y].pulse_count == word16(raw, 2 + 2 * y),
        d.channels@[y].threshold == word16(raw, 10 + 2 * y),
        d.channels@[y].frequency == word16(raw, 18 + 2 * y),
        d.channels@[y].rpm_value == word16(raw, 26 + 2 * y),
        d.channels@[y].average_value == word16(raw, 34 + 2 * y),
        d.channels@[y].duration_rpm == word32(raw, 46 + 4 * y),
        d.channels@[y].duration_ae == word32(raw, 62 + 4 * y),
        d.digital_inputs@[j] == ((word16(raw, 42) as u16 >> (j as u16)) & 1u16 == 1u16),
{
    assert(d.channels@[y] == aio_channel(raw, y));
    assert forall|i: int| 0 <= i && i + 1 < raw.len() implies #[trigger] be16_at(raw, i) == word16(raw, i) by {
        assert(0 <= raw[i] as int * 256 + raw[i + 1] as int <= 65535) by (nonlinear_arith)
            requires
                0 <= raw[i] <= 255,
                0 <= raw[i + 1] <= 255;
    }
    assert forall|i: int| 0 <= i && i + 3 < raw.len() implies #[trigger] be32_at(raw, i) == word32(raw, i) by {
        assert(0 <= word32(raw, i) <= 4294967295) by (nonlinear_arith)
            requires
                0 <= raw[i] <= 255,
                0 <= raw[i + 1] <= 255,
                0 <= raw[i + 2] <= 255,
                0 <= raw[i + 3] <= 255,
                word32(raw, i) == raw[i] as int * 16777216 + raw[i + 1] as int * 65536 + raw[i + 2] as int * 256
                    + raw[i + 3] as int;
    }
    assert(be16_at(raw, 26 + 2 * y) == word16(raw, 26 + 2 * y));
    assert(be16_at(raw, 42) == word16(raw, 42));
}

} // verus!

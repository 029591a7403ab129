//! Multi-channel RPM sensors: register layout, decoding, the outlier filter
//! that holds back sudden jumps, and the named parameters of a reading.

use std::collections::HashMap;
use vstd::prelude::*;

use crate::bytes::{be16_at, read_be16};
use crate::config::settings::pair_views;
use crate::devices::aio_module::push_pair;
use crate::text::{
    bool_string, bool_text, concat, decimal, decimal_string, owned, parse_u8, parse_unsigned, str_eq,
    strip_prefix, strip_prefix_spec,
};
use crate::utils::clock::now_seconds;
use crate::utils::error::ModbusError;

verus! {

/// The threshold of a channel that has none configured.
pub const DEFAULT_RPM_THRESHOLD: u16 = 500;

/// One channel of an RPM reading.
#[derive(Debug, Clone)]
pub struct RpmChannelData {
    pub channel_id: u8,
    pub rpm_value: u16,
    pub freq_value: u16,
    pub pulse_config: u16,
    pub is_engine_running: bool,
    pub rpm_threshold: u16,
    pub status: String,
    pub error_code: u16,
    pub engine_duration_seconds: u64,
}

/// Whether an engine turns: its speed reaches the threshold and its channel
/// reports no error.
pub open spec fn engine_running(c: RpmChannelData) -> bool {
    c.rpm_value >= c.rpm_threshold && c.error_code == 0
}

impl RpmChannelData {
    /// A channel with no reading yet, in status "Unknown".
    pub fn new(channel_id: u8, rpm_threshold: u16) -> (c: Self)
        ensures
            c.channel_id == channel_id,
            c.rpm_value == 0,
            c.freq_value == 0,
            c.pulse_config == 0,
            !c.is_engine_running,
            c.rpm_threshold == rpm_threshold,
            c.status@ == "Unknown"@,
            c.error_code == 0,
            c.engine_duration_seconds == 0,
    {
        RpmChannelData {
            channel_id,
            rpm_value: 0,
            freq_value: 0,
            pulse_config: 0,
            is_engine_running: false,
            rpm_threshold,
            status: owned("Unknown"),
            error_code: 0,
            engine_duration_seconds: 0,
        }
    }

    /// Whether the engine on this channel turns.
    pub fn is_engine_running(&self) -> (b: bool)
        ensures
            b == engine_running(*self),
    {
        self.rpm_value >= self.rpm_threshold && self.error_code == 0
    }
}

/// A reading of an RPM sensor.
#[derive(Debug, Clone)]
pub struct RpmData {
    pub device_address: u8,
    pub channels: Vec<RpmChannelData>,
    pub total_channels: u8,
    /// When the reading was taken, in seconds since the Unix epoch.
    pub timestamp: i64,
    pub device_status: String,
    pub global_error_code: u16,
}

/// The threshold of channel `i`: the configured one, or the default.
pub open spec fn threshold_for(thresholds: Seq<u16>, i: int) -> u16 {
    if 0 <= i < thresholds.len() {
        thresholds[i]
    } else {
        DEFAULT_RPM_THRESHOLD
    }
}

/// Channel `i` (from zero) of a fresh reading: no values, status "Unknown".
pub open spec fn fresh_channel(c: RpmChannelData, i: int, thresholds: Seq<u16>) -> bool {
    &&& c.channel_id == i + 1
    &&& c.rpm_value == 0
    &&& c.freq_value == 0
    &&& c.pulse_config == 0
    &&& !c.is_engine_running
    &&& c.rpm_threshold == threshold_for(thresholds, i)
    &&& c.status@ == "Unknown"@
    &&& c.error_code == 0
    &&& c.engine_duration_seconds == 0
}

/// The first channel numbered `id`.
pub open spec fn rpm_find_channel(chs: Seq<RpmChannelData>, id: u8) -> Option<RpmChannelData>
    decreases chs.len(),
{
    if chs.len() == 0 {
        None
    } else if chs[0].channel_id == id {
        Some(chs[0])
    } else {
        rpm_find_channel(chs.drop_first(), id)
    }
}

/// The channels whose engines turn, in order.
pub open spec fn running_channels(chs: Seq<RpmChannelData>) -> Seq<RpmChannelData> {
    chs.filter(|c: RpmChannelData| engine_running(c))
}

impl RpmData {
    /// A reading of `total_channels` channels taken at `timestamp`, with no
    /// values yet; channel `i` gets the `i`-th threshold, or 500.
    pub fn new_at(address: u8, total_channels: u8, rpm_thresholds: Vec<u16>, timestamp: i64) -> (d: Self)
        ensures
            d.device_address == address,
            d.total_channels == total_channels,
            d.timestamp == timestamp,
            d.device_status@ == "Unknown"@,
            d.global_error_code == 0,
            d.channels@.len() == total_channels,
            forall|i: int| 0 <= i < total_channels ==> fresh_channel(#[trigger] d.channels@[i], i, rpm_thresholds@),
    {
        let mut channels: Vec<RpmChannelData> = Vec::new();
        let mut i: u8 = 0;
        while i < total_channels
            invariant
                i <= total_channels,
                channels@.len() == i,
                forall|k: int| 0 <= k < i ==> fresh_channel(#[trigger] channels@[k], k, rpm_thresholds@),
            decreases total_channels - i,
        {
            let threshold = if (i as usize) < rpm_thresholds.len() {
                rpm_thresholds[i as usize]
            } else {
                DEFAULT_RPM_THRESHOLD
            };
            channels.push(RpmChannelData::new(i + 1, threshold));
            i += 1;
        }
        RpmData {
            device_address: address,
            channels,
            total_channels,
            timestamp,
            device_status: owned("Unknown"),
            global_error_code: 0,
        }
    }

    /// A reading with no values yet, stamped with the system clock.
    pub fn new(address: u8, total_channels: u8, rpm_thresholds: Vec<u16>) -> (d: Self)
        ensures
            d.device_address == address,
            d.total_channels == total_channels,
            d.device_status@ == "Unknown"@,
            d.global_error_code == 0,
            d.channels@.len() == total_channels,
            forall|i: int| 0 <= i < total_channels ==> fresh_channel(#[trigger] d.channels@[i], i, rpm_thresholds@),
    {
        Self::new_at(address, total_channels, rpm_thresholds, now_seconds())
    }

    /// The first channel, the primary one.
    pub fn get_primary_channel(&self) -> (c: Option<&RpmChannelData>)
        ensures
            self.channels@.len() == 0 ==> c is None,
            self.channels@.len() > 0 ==> c == Some(&self.channels@[0]),
    {
        if self.channels.len() > 0 {
            Some(&self.channels[0])
        } else {
            None
        }
    }

    /// The first channel numbered `channel_id`.
    pub fn get_channel(&self, channel_id: u8) -> (c: Option<&RpmChannelData>)
        ensures
            match rpm_find_channel(self.channels@, channel_id) {
                Some(x) => c == Some(&x),
                None => c is None,
            },
    {
        let mut i: usize = 0;
        proof {
            assert(self.channels@.skip(0) =~= self.channels@);
        }
        while i < self.channels.len()
            invariant
                i <= self.channels@.len(),
                rpm_find_channel(self.channels@, channel_id) == rpm_find_channel(self.channels@.skip(i as int), channel_id),
            decreases self.channels.len() - i,
        {
            proof {
                assert(self.channels@.skip(i as int).drop_first() =~= self.channels@.skip(i + 1));
            }
            if self.channels[i].channel_id == channel_id {
                return Some(&self.channels[i]);
            }
            i += 1;
        }
        None
    }

    /// The channels whose engines turn, in order.
    pub fn get_running_engines(&self) -> (r: Vec<&RpmChannelData>)
        ensures
            r@.map_values(|c: &RpmChannelData| *c) == running_channels(self.channels@),
    {
        let mut r: Vec<&RpmChannelData> = Vec::new();
        let mut i: usize = 0;
        while i < self.channels.len()
            invariant
                i <= self.channels@.len(),
                r@.map_values(|c: &RpmChannelData| *c) == running_channels(self.channels@.take(i as int)),
            decreases self.channels.len() - i,
        {
            let ghost before = r@.map_values(|c: &RpmChannelData| *c);
            proof {
                reveal(Seq::filter);
                assert(self.channels@.take(i + 1).drop_last() =~= self.channels@.take(i as int));
            }
            if self.channels[i].is_engine_running() {
                r.push(&self.channels[i]);
                proof {
                    assert(r@.map_values(|c: &RpmChannelData| *c) =~= before.push(self.channels@[i as int]));
                }
            }
            i += 1;
        }
        proof {
            assert(self.channels@.take(self.channels@.len() as int) =~= self.channels@);
        }
        r
    }

    /// How many engines turn.
    pub fn running_engine_count(&self) -> (n: usize)
        ensures
            n == running_channels(self.channels@).len(),
    {
        let v = self.get_running_engines();
        proof {
            assert(v@.map_values(|c: &RpmChannelData| *c).len() == v@.len());
        }
        v.len()
    }
}

/// Registers a sensor of `tc` channels answers with: the speeds, the
/// frequencies and the pulse settings of all channels, then its slave
/// address and baud rate.
pub open spec fn rpm_register_count(tc: u8) -> nat {
    (3 * tc + 2) as nat
}

/// The number of registers to read from a sensor of `channels` channels.
pub fn register_count(channels: u8) -> (n: u16)
    requires
        3 * channels + 2 <= 255,
    ensures
        n == rpm_register_count(channels),
{
    match channels {
        1 => 5,
        2 => 8,
        3 => 11,
        4 => 14,
        _ => (channels * 3 + 2) as u16,
    }
}

/// Channel `i` (from zero) decoded from the registers `d` of a sensor of `tc`
/// channels.
pub open spec fn decoded_channel(c: RpmChannelData, d: Seq<u8>, tc: int, i: int, thresholds: Seq<u16>) -> bool {
    &&& c.channel_id == i + 1
    &&& c.rpm_value == be16_at(d, 2 * i)
    &&& c.freq_value == be16_at(d, 2 * tc + 2 * i)
    &&& c.pulse_config == be16_at(d, 4 * tc + 2 * i)
    &&& c.rpm_threshold == threshold_for(thresholds, i)
    &&& c.is_engine_running == (c.rpm_value >= c.rpm_threshold)
    &&& c.status@ == "OK"@
    &&& c.error_code == 0
    &&& c.engine_duration_seconds == 0
}

/// The text of a register block that is too short.
pub open spec fn rpm_too_short_text(tc: u8, need: nat, got: nat) -> Seq<char> {
    "Insufficient data length for "@ + decimal(tc as nat) + " channel RPM parsing (need "@ + decimal(need)
        + " bytes, got "@ + decimal(got) + ")"@
}

/// The text of a count: "RPM Device <address> (<channels> channels)".
pub open spec fn rpm_device_name(address: u8, tc: u8) -> Seq<char> {
    "RPM Device "@ + decimal(address as nat) + " ("@ + decimal(tc as nat) + " channels)"@
}

/// The value of a channel parameter named `<prefix><id>` with id a channel
/// number: `Some(answer)` when the name has that form, `None` otherwise.
pub open spec fn indexed_parameter(d: RpmData, name: Seq<char>) -> Option<Option<Seq<char>>> {
    if strip_prefix_spec(name, "RPM"@) is Some && name.len() > 3 {
        match parse_unsigned(name.skip(3), 255) {
            Some(n) => Some(
                match rpm_find_channel(d.channels@, n as u8) {
                    Some(c) => Some(decimal(c.rpm_value as nat)),
                    None => None,
                },
            ),
            None => None,
        }
    } else if strip_prefix_spec(name, "EngineDurationSeconds"@) is Some && name.len() > 21 {
        match parse_unsigned(name.skip(21), 255) {
            Some(n) => Some(
                match rpm_find_channel(d.channels@, n as u8) {
                    Some(c) => Some(decimal(c.engine_duration_seconds as nat)),
                    None => None,
                },
            ),
            None => None,
        }
    } else if strip_prefix_spec(name, "Freq"@) is Some && name.len() > 4 {
        match parse_unsigned(name.skip(4), 255) {
            Some(n) => Some(
                match rpm_find_channel(d.channels@, n as u8) {
                    Some(c) => Some(decimal(c.freq_value as nat)),
                    None => None,
                },
            ),
            None => None,
        }
    } else if strip_prefix_spec(name, "Pulse"@) is Some && name.len() > 5 {
        match parse_unsigned(name.skip(5), 255) {
            Some(n) => Some(
                match rpm_find_channel(d.channels@, n as u8) {
                    Some(c) => Some(decimal(c.pulse_config as nat)),
                    None => None,
                },
            ),
            None => None,
        }
    } else {
        None
    }
}

/// The names that speak of the primary channel or the whole sensor.
pub open spec fn legacy_parameter(d: RpmData, name: Seq<char>) -> Option<Seq<char>> {
    if name == "RPM"@ {
        if d.channels@.len() > 0 { Some(decimal(d.channels@[0].rpm_value as nat)) } else { None }
    } else if name == "Freq"@ {
        if d.channels@.len() > 0 { Some(decimal(d.channels@[0].freq_value as nat)) } else { None }
    } else if name == "Pulse"@ {
        if d.channels@.len() > 0 { Some(decimal(d.channels@[0].pulse_config as nat)) } else { None }
    } else if name == "Status"@ {
        Some(d.device_status@)
    } else if name == "ErrorCode"@ {
        Some(decimal(d.global_error_code as nat))
    } else {
        None
    }
}

/// The value of the parameter `name` of a reading, as text; `minutes` is the
/// text of the total engine time.
pub open spec fn rpm_parameter(d: RpmData, name: Seq<char>, minutes: Seq<char>) -> Option<Seq<char>> {
    if name == "TotalChannels"@ {
        Some(decimal(d.total_channels as nat))
    } else if name == "DeviceStatus"@ {
        Some(d.device_status@)
    } else if name == "GlobalErrorCode"@ {
        Some(decimal(d.global_error_code as nat))
    } else if name == "RunningEngines"@ {
        Some(decimal(running_channels(d.channels@).len()))
    } else if name == "TotalEngineMinutes"@ {
        Some(minutes)
    } else {
        match indexed_parameter(d, name) {
            Some(v) => v,
            None => legacy_parameter(d, name),
        }
    }
}

/// The parameters of one channel, named after it.
pub open spec fn rpm_channel_parameters(c: RpmChannelData) -> Seq<(Seq<char>, Seq<char>)> {
    let id = decimal(c.channel_id as nat);
    seq![
        ("RPM"@ + id, decimal(c.rpm_value as nat)),
        ("Freq"@ + id, decimal(c.freq_value as nat)),
        ("Pulse"@ + id, decimal(c.pulse_config as nat)),
        ("EngineDurationSeconds"@ + id, decimal(c.engine_duration_seconds as nat)),
        ("Status"@ + id, c.status@),
        ("ErrorCode"@ + id, decimal(c.error_code as nat)),
        ("IsRunning"@ + id, bool_text(engine_running(c))),
        ("RPMThreshold"@ + id, decimal(c.rpm_threshold as nat)),
    ]
}

/// The parameters of all channels, channel by channel.
pub open spec fn rpm_all_channel_parameters(chs: Seq<RpmChannelData>) -> Seq<(Seq<char>, Seq<char>)>
    decreases chs.len(),
{
    if chs.len() == 0 {
        Seq::empty()
    } else {
        rpm_all_channel_parameters(chs.drop_last()) + rpm_channel_parameters(chs.last())
    }
}

/// Every parameter of a reading, in order.
pub open spec fn rpm_all_parameters(d: RpmData, minutes: Seq<char>) -> Seq<(Seq<char>, Seq<char>)> {
    seq![
        ("TotalChannels"@, decimal(d.total_channels as nat)),
        ("DeviceStatus"@, d.device_status@),
        ("GlobalErrorCode"@, decimal(d.global_error_code as nat)),
        ("RunningEngines"@, decimal(running_channels(d.channels@).len())),
        ("TotalEngineMinutes"@, minutes),
        ("Timestamp"@, crate::text::signed_decimal(d.timestamp as int)),
    ] + rpm_all_channel_parameters(d.channels@)
}

/// The channel number at the end of `name`, after a prefix of `skip`
/// characters.
fn channel_number(name: &str, prefix: &str) -> (r: Option<u8>)
    requires
        strip_prefix_spec(name@, prefix@) is Some,
    ensures
        match parse_unsigned(name@.skip(prefix@.len() as int), 255) {
            Some(n) => r == Some(n as u8),
            None => r is None,
        },
{
    match strip_prefix(name, prefix) {
        Some(rest) => parse_u8(rest.as_str()),
        None => None,
    }
}

impl RpmChannelData {
    fn push_parameters(&self, out: &mut Vec<(String, String)>)
        ensures
            pair_views(final(out)@) == pair_views(old(out)@) + rpm_channel_parameters(*self),
    {
        let id = decimal_string(self.channel_id as u64);
        push_pair(out, concat("RPM", id.as_str()), decimal_string(self.rpm_value as u64));
        push_pair(out, concat("Freq", id.as_str()), decimal_string(self.freq_value as u64));
        push_pair(out, concat("Pulse", id.as_str()), decimal_string(self.pulse_config as u64));
        push_pair(out, concat("EngineDurationSeconds", id.as_str()), decimal_string(self.engine_duration_seconds));
        push_pair(out, concat("Status", id.as_str()), self.status.clone());
        push_pair(out, concat("ErrorCode", id.as_str()), decimal_string(self.error_code as u64));
        push_pair(out, concat("IsRunning", id.as_str()), bool_string(self.is_engine_running()));
        push_pair(out, concat("RPMThreshold", id.as_str()), decimal_string(self.rpm_threshold as u64));
        proof {
            assert(pair_views(final(out)@) =~= pair_views(old(out)@) + rpm_channel_parameters(*self));
        }
    }
}

impl RpmData {
    /// A channel parameter named `<prefix><id>`, when the name has that form.
    fn indexed_parameter(&self, name: &str) -> (r: Option<Option<String>>)
        ensures
            match indexed_parameter(*self, name@) {
                Some(Some(t)) => r matches Some(Some(x)) && x@ == t,
                Some(None) => r matches Some(None),
                None => r is None,
            },
    {
        let n = name.unicode_len();
        proof {
            reveal_strlit("RPM");
            reveal_strlit("EngineDurationSeconds");
            reveal_strlit("Freq");
            reveal_strlit("Pulse");
        }
        if crate::text::starts_with(name, "RPM") && n > 3 {
            match channel_number(name, "RPM") {
                Some(id) => Some(
                    match self.get_channel(id) {
                        Some(c) => Some(decimal_string(c.rpm_value as u64)),
                        None => None,
                    },
                ),
                None => None,
            }
        } else if crate::text::starts_with(name, "EngineDurationSeconds") && n > 21 {
            match channel_number(name, "EngineDurationSeconds") {
                Some(id) => Some(
                    match self.get_channel(id) {
                        Some(c) => Some(decimal_string(c.engine_duration_seconds)),
                        None => None,
                    },
                ),
                None => None,
            }
        } else if crate::text::starts_with(name, "Freq") && n > 4 {
            match channel_number(name, "Freq") {
                Some(id) => Some(
                    match self.get_channel(id) {
                        Some(c) => Some(decimal_string(c.freq_value as u64)),
                        None => None,
                    },
                ),
                None => None,
            }
        } else if crate::text::starts_with(name, "Pulse") && n > 5 {
            match channel_number(name, "Pulse") {
                Some(id) => Some(
                    match self.get_channel(id) {
                        Some(c) => Some(decimal_string(c.pulse_config as u64)),
                        None => None,
                    },
                ),
                None => None,
            }
        } else {
            None
        }
    }

    /// The names that speak of the primary channel or the whole sensor.
    fn legacy_parameter(&self, name: &str) -> (r: Option<String>)
        ensures
            match legacy_parameter(*self, name@) {
                Some(t) => r matches Some(x) && x@ == t,
                None => r is None,
            },
    {
        if str_eq(name, "RPM") {
            match self.get_primary_channel() {
                Some(c) => Some(decimal_string(c.rpm_value as u64)),
                None => None,
            }
        } else if str_eq(name, "Freq") {
            match self.get_primary_channel() {
                Some(c) => Some(decimal_string(c.freq_value as u64)),
                None => None,
            }
        } else if str_eq(name, "Pulse") {
            match self.get_primary_channel() {
                Some(c) => Some(decimal_string(c.pulse_config as u64)),
                None => None,
            }
        } else if str_eq(name, "Status") {
            Some(self.device_status.clone())
        } else if str_eq(name, "ErrorCode") {
            Some(decimal_string(self.global_error_code as u64))
        } else {
            None
        }
    }

    /// The value of the parameter `name`, as text; `total_engine_minutes` is
    /// the text given for "TotalEngineMinutes".
    pub fn get_parameter(&self, name: &str, total_engine_minutes: &str) -> (r: Option<String>)
        ensures
            match rpm_parameter(*self, name@, total_engine_minutes@) {
                Some(t) => r matches Some(x) && x@ == t,
                None => r is None,
            },
    {
        if str_eq(name, "TotalChannels") {
            Some(decimal_string(self.total_channels as u64))
        } else if str_eq(name, "DeviceStatus") {
            Some(self.device_status.clone())
        } else if str_eq(name, "GlobalErrorCode") {
            Some(decimal_string(self.global_error_code as u64))
        } else if str_eq(name, "RunningEngines") {
            Some(decimal_string(self.running_engine_count() as u64))
        } else if str_eq(name, "TotalEngineMinutes") {
            Some(owned(total_engine_minutes))
        } else {
            match self.indexed_parameter(name) {
                Some(v) => v,
                None => self.legacy_parameter(name),
            }
        }
    }

    /// Every parameter, as name and text; `total_engine_minutes` is the text
    /// given for "TotalEngineMinutes".
    pub fn get_all_parameters(&self, total_engine_minutes: &str) -> (r: Vec<(String, String)>)
        ensures
            pair_views(r@) == rpm_all_parameters(*self, total_engine_minutes@),
    {
        let mut out: Vec<(String, String)> = Vec::new();
        push_pair(&mut out, owned("TotalChannels"), decimal_string(self.total_channels as u64));
        push_pair(&mut out, owned("DeviceStatus"), self.device_status.clone());
        push_pair(&mut out, owned("GlobalErrorCode"), decimal_string(self.global_error_code as u64));
        push_pair(&mut out, owned("RunningEngines"), decimal_string(self.running_engine_count() as u64));
        push_pair(&mut out, owned("TotalEngineMinutes"), owned(total_engine_minutes));
        push_pair(&mut out, owned("Timestamp"), crate::text::signed_decimal_string(self.timestamp));
        let ghost base = pair_views(out@);
        let mut i: usize = 0;
        while i < self.channels.len()
            invariant
                i <= self.channels@.len(),
                pair_views(out@) == base + rpm_all_channel_parameters(self.channels@.take(i as int)),
            decreases self.channels.len() - i,
        {
            self.channels[i].push_parameters(&mut out);
            proof {
                assert(self.channels@.take(i + 1).drop_last() =~= self.channels@.take(i as int));
            }
            i += 1;
        }
        proof {
            assert(self.channels@.take(self.channels@.len() as int) =~= self.channels@);
            assert(pair_views(out@) =~= rpm_all_parameters(*self, total_engine_minutes@));
        }
        out
    }

    /// The kind of device.
    pub fn device_type(&self) -> (t: String)
        ensures
            t@ == "rpm"@,
    {
        owned("rpm")
    }

    /// "RPM Device <address> (<channels> channels)".
    pub fn device_name(&self) -> (t: String)
        ensures
            t@ == rpm_device_name(self.device_address, self.total_channels),
    {
        let a = decimal_string(self.device_address as u64);
        let c = decimal_string(self.total_channels as u64);
        let s = concat("RPM Device ", a.as_str());
        let s = concat(s.as_str(), " (");
        let s = concat(s.as_str(), c.as_str());
        concat(s.as_str(), " channels)")
    }

    /// Where the sensor is: not recorded.
    pub fn device_location(&self) -> (t: String)
        ensures
            t@ == "Unknown"@,
    {
        owned("Unknown")
    }

    /// When the reading was taken, in seconds since the Unix epoch.
    pub fn unix_ts(&self) -> (t: i64)
        ensures
            t == self.timestamp,
    {
        self.timestamp
    }
}

/// A reading from the outlier filter's point of view: the value let through
/// for channel `ch` when `v` is read. A value that jumps by more than
/// `detect` from the last one let through is replaced by that last one,
/// until `confirm` such readings in a row have been held back.
pub open spec fn filtered_value(
    last: Map<u8, u16>,
    counts: Map<u8, u16>,
    ch: u8,
    v: u16,
    detect: u16,
    confirm: u16,
) -> u16 {
    if last.contains_key(ch) {
        let l = last[ch];
        let diff = if v > l { v - l } else { l - v };
        let c = if counts.contains_key(ch) { counts[ch] } else { 0 };
        if diff > detect && c < confirm {
            l
        } else {
            v
        }
    } else {
        v
    }
}

/// The count of held-back readings after reading `v` on channel `ch`.
pub open spec fn counts_after(
    last: Map<u8, u16>,
    counts: Map<u8, u16>,
    ch: u8,
    v: u16,
    detect: u16,
    confirm: u16,
) -> Map<u8, u16> {
    if last.contains_key(ch) {
        let l = last[ch];
        let diff = if v > l { v - l } else { l - v };
        let c = if counts.contains_key(ch) { counts[ch] } else { 0 };
        if diff > detect && c < confirm {
            counts.insert(ch, (c + 1) as u16)
        } else {
            counts.insert(ch, 0)
        }
    } else {
        counts
    }
}

/// An RPM sensor and the state of its outlier filter.
pub struct RpmDevice {
    address: u8,
    name: String,
    location: String,
    total_channels: u8,
    rpm_thresholds: Vec<u16>,
    last_rpm_values: HashMap<u8, u16>,
    outlier_confirmation_counts: HashMap<u8, u16>,
    outlier_detection_threshold: u16,
    outlier_confirmation_threshold: u16,
}

/// The text of the status of a sensor whose answer was too short.
pub open spec fn short_read_status() -> Seq<char> {
    "Invalid Data Length"@
}

impl RpmDevice {
    pub closed spec fn spec_address(&self) -> u8 {
        self.address
    }

    pub closed spec fn spec_name(&self) -> Seq<char> {
        self.name@
    }

    pub closed spec fn spec_location(&self) -> Seq<char> {
        self.location@
    }

    pub closed spec fn channel_count(&self) -> u8 {
        self.total_channels
    }

    pub closed spec fn thresholds(&self) -> Seq<u16> {
        self.rpm_thresholds@
    }

    /// The last value let through, by channel.
    pub closed spec fn last_values(&self) -> Map<u8, u16> {
        self.last_rpm_values@
    }

    /// The number of readings held back in a row, by channel.
    pub closed spec fn outlier_counts(&self) -> Map<u8, u16> {
        self.outlier_confirmation_counts@
    }

    /// The jump that makes a reading an outlier.
    pub closed spec fn detection_threshold(&self) -> u16 {
        self.outlier_detection_threshold
    }

    /// The number of outliers in a row after which a new level is accepted.
    pub closed spec fn confirmation_threshold(&self) -> u16 {
        self.outlier_confirmation_threshold
    }

    /// What `with_config` makes of these arguments: the identity given, the
    /// channel count (two for zero), the thresholds given padded with the
    /// default up to the channel count, and an empty filter state.
    pub open spec fn configured_as(
        &self,
        address: u8,
        name: Seq<char>,
        location: Seq<char>,
        total_channels: u8,
        rpm_thresholds: Seq<u16>,
    ) -> bool {
        &&& self.spec_address() == address
        &&& self.spec_name() == name
        &&& self.spec_location() == location
        &&& self.channel_count() == (if total_channels == 0 { 2 } else { total_channels })
        &&& self.thresholds().len() == (if rpm_thresholds.len() >= self.channel_count() {
            rpm_thresholds.len()
        } else {
            self.channel_count() as nat
        })
        &&& forall|i: int| 0 <= i < self.thresholds().len() ==> #[trigger] self.thresholds()[i] == threshold_for(rpm_thresholds, i)
        &&& self.last_values() == Map::<u8, u16>::empty()
        &&& self.outlier_counts() == Map::<u8, u16>::empty()
        &&& self.detection_threshold() == 150
        &&& self.confirmation_threshold() == 15
    }

    /// A two-channel sensor with thresholds of 500, in "Unknown" location;
    /// the filter treats jumps above 150 as outliers and accepts a new level
    /// after 15 of them.
    pub fn new(address: u8, name: String) -> (d: Self)
        ensures
            d.spec_address() == address,
            d.spec_name() == name@,
            d.spec_location() == "Unknown"@,
            d.channel_count() == 2,
            d.thresholds() == seq![500u16, 500u16],
            d.last_values() == Map::<u8, u16>::empty(),
            d.outlier_counts() == Map::<u8, u16>::empty(),
            d.detection_threshold() == 150,
            d.confirmation_threshold() == 15,
    {
        let mut thresholds: Vec<u16> = Vec::new();
        thresholds.push(500);
        thresholds.push(500);
        proof {
            assert(thresholds@ =~= seq![500u16, 500u16]);
        }
        RpmDevice {
            address,
            name,
            location: owned("Unknown"),
            total_channels: 2,
            rpm_thresholds: thresholds,
            last_rpm_values: HashMap::new(),
            outlier_confirmation_counts: HashMap::new(),
            outlier_detection_threshold: 150,
            outlier_confirmation_threshold: 15,
        }
    }

    /// A sensor of `total_channels` channels (two when zero is given), whose
    /// thresholds are those given, followed by 500 for every channel left.
    pub fn with_config(
        address: u8,
        name: String,
        location: String,
        total_channels: u8,
        rpm_thresholds: Vec<u16>,
    ) -> (d: Self)
        ensures
            d.spec_address() == address,
            d.spec_name() == name@,
            d.spec_location() == location@,
            d.channel_count() == (if total_channels == 0 { 2 } else { total_channels }),
            d.thresholds().len() == (if rpm_thresholds@.len() >= d.channel_count() {
                rpm_thresholds@.len()
            } else {
                d.channel_count() as nat
            }),
            forall|i: int| 0 <= i < d.thresholds().len() ==> #[trigger] d.thresholds()[i] == threshold_for(rpm_thresholds@, i),
            d.last_values() == Map::<u8, u16>::empty(),
            d.outlier_counts() == Map::<u8, u16>::empty(),
            d.detection_threshold() == 150,
            d.confirmation_threshold() == 15,
            d.configured_as(address, name@, location@, total_channels, rpm_thresholds@),
    {
        let channels: u8 = if total_channels == 0 { 2 } else { total_channels };
        let mut thresholds = rpm_thresholds;
        let ghost given = thresholds@;
        while thresholds.len() < channels as usize
            invariant
                given.len() <= thresholds@.len(),
                thresholds@.len() <= (if given.len() >= channels { given.len() } else { channels as nat }),
                forall|i: int| 0 <= i < thresholds@.len() ==> #[trigger] thresholds@[i] == threshold_for(given, i),
            decreases channels - thresholds.len(),
        {
            thresholds.push(DEFAULT_RPM_THRESHOLD);
        }
        RpmDevice {
            address,
            name,
            location,
            total_channels: channels,
            rpm_thresholds: thresholds,
            last_rpm_values: HashMap::new(),
            outlier_confirmation_counts: HashMap::new(),
            outlier_detection_threshold: 150,
            outlier_confirmation_threshold: 15,
        }
    }

    /// The sensor's bus address.
    pub fn address(&self) -> (a: u8)
        ensures
            a == self.spec_address(),
    {
        self.address
    }

    /// The sensor's name.
    pub fn name(&self) -> (n: &str)
        ensures
            n@ == self.spec_name(),
    {
        self.name.as_str()
    }

    /// The kind of device.
    pub fn device_type(&self) -> (t: &'static str)
        ensures
            t@ == "rpm"@,
    {
        "rpm"
    }

    /// The configured number of channels.
    pub fn total_channels(&self) -> (n: u8)
        ensures
            n == self.channel_count(),
    {
        self.total_channels
    }

    /// Lets a reading of channel `channel_id` through the outlier filter.
    pub fn apply_outlier_detection(&mut self, channel_id: u8, value: u16) -> (r: u16)
        ensures
            r == filtered_value(
                old(self).last_values(),
                old(self).outlier_counts(),
                channel_id,
                value,
                old(self).detection_threshold(),
                old(self).confirmation_threshold(),
            ),
            final(self).last_values() == old(self).last_values().insert(channel_id, r),
            final(self).outlier_counts() == counts_after(
                old(self).last_values(),
                old(self).outlier_counts(),
                channel_id,
                value,
                old(self).detection_threshold(),
                old(self).confirmation_threshold(),
            ),
            final(self).spec_address() == old(self).spec_address(),
            final(self).spec_name() == old(self).spec_name(),
            final(self).spec_location() == old(self).spec_location(),
            final(self).channel_count() == old(self).channel_count(),
            final(self).thresholds() == old(self).thresholds(),
            final(self).detection_threshold() == old(self).detection_threshold(),
            final(self).confirmation_threshold() == old(self).confirmation_threshold(),
    {
        broadcast use vstd::std_specs::hash::group_hash_axioms;
        let mut value = value;
        let last = match self.last_rpm_values.get(&channel_id) {
            Some(l) => Some(*l),
            None => None,
        };
        match last {
            Some(last_value) => {
                let diff = if value > last_value { value - last_value } else { last_value - value };
                if diff > self.outlier_detection_threshold {
                    let current_count = match self.outlier_confirmation_counts.get(&channel_id) {
                        Some(c) => *c,
                        None => 0,
                    };
                    if current_count < self.outlier_confirmation_threshold {
                        value = last_value;
                        self.outlier_confirmation_counts.insert(channel_id, current_count + 1);
                    } else {
                        self.outlier_confirmation_counts.insert(channel_id, 0);
                    }
                } else {
                    self.outlier_confirmation_counts.insert(channel_id, 0);
                }
            },
            None => {},
        }
        self.last_rpm_values.insert(channel_id, value);
        value
    }
}

/// Channel `i` (from zero) of a reading that the sensor answered in full:
/// the speed let through by the filter, the frequency and pulse setting read.
pub open spec fn read_channel(
    c: RpmChannelData,
    d: Seq<u8>,
    tc: int,
    i: int,
    thresholds: Seq<u16>,
    last: Map<u8, u16>,
    counts: Map<u8, u16>,
    detect: u16,
    confirm: u16,
) -> bool {
    &&& c.channel_id == i + 1
    &&& c.rpm_value == filtered_value(last, counts, (i + 1) as u8, be16_at(d, 2 * i), detect, confirm)
    &&& c.freq_value == be16_at(d, 2 * tc + 2 * i)
    &&& c.pulse_config == be16_at(d, 4 * tc + 2 * i)
    &&& c.rpm_threshold == threshold_for(thresholds, i)
    &&& c.is_engine_running == (c.rpm_value >= c.rpm_threshold)
    &&& c.status@ == "OK"@
    &&& c.error_code == 0
    &&& c.engine_duration_seconds == 0
}

/// Channel `i` of a reading that failed: no values, the given status, error 1.
pub open spec fn failed_channel(c: RpmChannelData, i: int, thresholds: Seq<u16>, status: Seq<char>) -> bool {
    &&& c.channel_id == i + 1
    &&& c.rpm_value == 0
    &&& c.freq_value == 0
    &&& c.pulse_config == 0
    &&& !c.is_engine_running
    &&& c.rpm_threshold == threshold_for(thresholds, i)
    &&& c.status@ == status
    &&& c.error_code == 1
    &&& c.engine_duration_seconds == 0
}

/// The number of channels a sensor reports in its configuration register, if
/// the reply holds one between 1 and 8; the configured number otherwise.
pub open spec fn detected_channels(reply: Result<Seq<u8>, ModbusError>, configured: u8) -> u8 {
    match reply {
        Ok(d) => if d.len() >= 2 && 1 <= be16_at(d, 0) % 256 <= 8 {
            (be16_at(d, 0) % 256) as u8
        } else {
            configured
        },
        Err(_) => configured,
    }
}

/// The views of a reply.
pub open spec fn reply_view(reply: Result<Vec<u8>, ModbusError>) -> Result<Seq<u8>, ModbusError> {
    match reply {
        Ok(d) => Ok(d@),
        Err(e) => Err(e),
    }
}

impl RpmDevice {
    /// The channel configuration register, read to detect the channel count.
    pub const CHANNEL_CONFIG_REGISTER: u16 = 0x00FF;

    /// The channel count, given the reply to a read of the channel
    /// configuration register.
    pub fn detect_channels(&self, reply: &Result<Vec<u8>, ModbusError>) -> (n: u8)
        ensures
            n == detected_channels(reply_view(*reply), self.channel_count()),
    {
        match reply {
            Ok(data) => {
                if data.len() >= 2 {
                    let word = read_be16(data.as_slice(), 0);
                    let detected = (word % 256) as u8;
                    if detected > 0 && detected <= 8 {
                        return detected;
                    }
                }
                self.total_channels
            },
            Err(_) => self.total_channels,
        }
    }

    /// Decodes the registers of all configured channels, read at `timestamp`.
    pub fn parse_raw_data_at(&self, data: &[u8], timestamp: i64) -> (r: Result<RpmData, ModbusError>)
        requires
            3 * self.channel_count() + 2 <= 255,
        ensures
            data@.len() < 2 * rpm_register_count(self.channel_count()) ==> (r matches Err(
                ModbusError::InvalidData(m),
            ) && m@ == rpm_too_short_text(
                self.channel_count(),
                2 * rpm_register_count(self.channel_count()),
                data@.len(),
            )),
            data@.len() >= 2 * rpm_register_count(self.channel_count()) ==> (r matches Ok(d) && {
                &&& d.device_address == self.spec_address()
                &&& d.total_channels == self.channel_count()
                &&& d.timestamp == timestamp
                &&& d.device_status@ == "OK"@
                &&& d.global_error_code == 0
                &&& d.channels@.len() == self.channel_count()
                &&& forall|i: int|
                    0 <= i < self.channel_count() ==> decoded_channel(
                        #[trigger] d.channels@[i],
                        data@,
                        self.channel_count() as int,
                        i,
                        self.thresholds(),
                    )
            }),
    {
        let tc = self.total_channels;
        let need: usize = 2 * (register_count(tc) as usize);
        if data.len() < need {
            let a = decimal_string(tc as u64);
            let b = decimal_string(need as u64);
            let c = decimal_string(data.len() as u64);
            let m = concat("Insufficient data length for ", a.as_str());
            let m = concat(m.as_str(), " channel RPM parsing (need ");
            let m = concat(m.as_str(), b.as_str());
            let m = concat(m.as_str(), " bytes, got ");
            let m = concat(m.as_str(), c.as_str());
            let m = concat(m.as_str(), ")");
            return Err(ModbusError::InvalidData(m));
        }
        let mut channels: Vec<RpmChannelData> = Vec::new();
        let n = tc as usize;
        let mut i: usize = 0;
        while i < n
            invariant
                n == tc,
                tc == self.channel_count(),
                data@.len() >= 2 * rpm_register_count(tc),
                i <= n,
                channels@.len() == i,
                forall|k: int| 0 <= k < i ==> decoded_channel(#[trigger] channels@[k], data@, tc as int, k, self.thresholds()),
            decreases n - i,
        {
            let threshold = if i < self.rpm_thresholds.len() {
                self.rpm_thresholds[i]
            } else {
                DEFAULT_RPM_THRESHOLD
            };
            let rpm_value = read_be16(data, 2 * i);
            let freq_value = read_be16(data, 2 * n + 2 * i);
            let pulse_config = read_be16(data, 4 * n + 2 * i);
            channels.push(
                RpmChannelData {
                    channel_id: (i + 1) as u8,
                    rpm_value,
                    freq_value,
                    pulse_config,
                    is_engine_running: rpm_value >= threshold,
                    rpm_threshold: threshold,
                    status: owned("OK"),
                    error_code: 0,
                    engine_duration_seconds: 0,
                },
            );
            i += 1;
        }
        Ok(
            RpmData {
                device_address: self.address,
                channels,
                total_channels: tc,
                timestamp,
                device_status: owned("OK"),
                global_error_code: 0,
            },
        )
    }

    /// Decodes the registers of all configured channels, stamped with the
    /// system clock.
    pub fn parse_raw_data(&self, data: &[u8]) -> (r: Result<RpmData, ModbusError>)
        requires
            3 * self.channel_count() + 2 <= 255,
        ensures
            data@.len() < 2 * rpm_register_count(self.channel_count()) ==> (r matches Err(
                ModbusError::InvalidData(m),
            ) && m@ == rpm_too_short_text(
                self.channel_count(),
                2 * rpm_register_count(self.channel_count()),
                data@.len(),
            )),
            data@.len() >= 2 * rpm_register_count(self.channel_count()) ==> (r matches Ok(d) && {
                &&& d.device_address == self.spec_address()
                &&& d.total_channels == self.channel_count()
                &&& d.device_status@ == "OK"@
                &&& d.global_error_code == 0
                &&& d.channels@.len() == self.channel_count()
                &&& forall|i: int|
                    0 <= i < self.channel_count() ==> decoded_channel(
                        #[trigger] d.channels@[i],
                        data@,
                        self.channel_count() as int,
                        i,
                        self.thresholds(),
                    )
            }),
    {
        self.parse_raw_data_at(data, now_seconds())
    }
}

/// The entry of `k` in `m`, if any.
pub open spec fn map_at(m: Map<u8, u16>, k: u8) -> Option<u16> {
    if m.contains_key(k) {
        Some(m[k])
    } else {
        None
    }
}

/// The filter state after a full reading of `ac` channels with speed
/// registers `d`: every channel read is filtered on its own, others are left
/// alone.
pub open spec fn filter_after_reading(
    before_last: Map<u8, u16>,
    before_counts: Map<u8, u16>,
    after_last: Map<u8, u16>,
    after_counts: Map<u8, u16>,
    d: Seq<u8>,
    ac: u8,
    detect: u16,
    confirm: u16,
) -> bool {
    &&& forall|k: u8|
        1 <= k <= ac ==> #[trigger] map_at(after_last, k) == Some(
            filtered_value(before_last, before_counts, k, be16_at(d, 2 * (k - 1)), detect, confirm),
        )
    &&& forall|k: u8|
        1 <= k <= ac ==> #[trigger] map_at(after_counts, k) == map_at(
            counts_after(before_last, before_counts, k, be16_at(d, 2 * (k - 1)), detect, confirm),
            k,
        )
    &&& forall|k: u8|
        !(1 <= k <= ac) ==> #[trigger] map_at(after_last, k) == map_at(before_last, k) && map_at(after_counts, k)
            == map_at(before_counts, k)
}

/// The configuration of a sensor is unchanged from `a` to `b`.
pub open spec fn same_config(a: RpmDevice, b: RpmDevice) -> bool {
    &&& b.spec_address() == a.spec_address()
    &&& b.spec_name() == a.spec_name()
    &&& b.spec_location() == a.spec_location()
    &&& b.channel_count() == a.channel_count()
    &&& b.thresholds() == a.thresholds()
    &&& b.detection_threshold() == a.detection_threshold()
    &&& b.confirmation_threshold() == a.confirmation_threshold()
}

impl RpmDevice {
    /// The reading of `active_channels` channels made from the sensor's reply
    /// to a read of `register_count(active_channels)` registers from register
    /// 0: the speeds go through the outlier filter; a reply too short marks
    /// every channel as a read error; a failed read marks every channel as a
    /// communication error and resets the filter.
    pub fn decode_reading(&mut self, active_channels: u8, reply: Result<Vec<u8>, ModbusError>) -> (d: RpmData)
        requires
            3 * active_channels + 2 <= 255,
        ensures
            same_config(*old(self), *final(self)),
            d.device_address == old(self).spec_address(),
            d.total_channels == active_channels,
            d.channels@.len() == active_channels,
            match reply_view(reply) {
                Ok(data) => if data.len() >= 2 * rpm_register_count(active_channels) {
                    &&& d.device_status@ == "OK"@
                    &&& d.global_error_code == 0
                    &&& forall|i: int|
                        0 <= i < active_channels ==> read_channel(
                            #[trigger] d.channels@[i],
                            data,
                            active_channels as int,
                            i,
                            old(self).thresholds(),
                            old(self).last_values(),
                            old(self).outlier_counts(),
                            old(self).detection_threshold(),
                            old(self).confirmation_threshold(),
                        )
                    &&& filter_after_reading(
                        old(self).last_values(),
                        old(self).outlier_counts(),
                        final(self).last_values(),
                        final(self).outlier_counts(),
                        data,
                        active_channels,
                        old(self).detection_threshold(),
                        old(self).confirmation_threshold(),
                    )
                } else {
                    &&& d.device_status@ == short_read_status()
                    &&& d.global_error_code == 1
                    &&& forall|i: int|
                        0 <= i < active_channels ==> failed_channel(
                            #[trigger] d.channels@[i],
                            i,
                            old(self).thresholds(),
                            "Read Error"@,
                        )
                    &&& final(self).last_values() == old(self).last_values()
                    &&& final(self).outlier_counts() == old(self).outlier_counts()
                },
                Err(_) => {
                    &&& d.device_status@ == "Modbus Read Error"@
                    &&& d.global_error_code == 1
                    &&& forall|i: int|
                        0 <= i < active_channels ==> failed_channel(
                            #[trigger] d.channels@[i],
                            i,
                            old(self).thresholds(),
                            "Communication Error"@,
                        )
                    &&& final(self).last_values() == Map::<u8, u16>::empty()
                    &&& final(self).outlier_counts() == Map::<u8, u16>::empty()
                },
            },
    {
        let n = active_channels as usize;
        let ghost thresholds = self.rpm_thresholds@;
        let mut channels: Vec<RpmChannelData> = Vec::new();
        match reply {
            Ok(data) => {
                let need: usize = 2 * (register_count(active_channels) as usize);
                if data.len() >= need {
                    let ghost before = *self;
                    let mut i: usize = 0;
                    while i < n
                        invariant
                            n == active_channels,
                            data@.len() >= 2 * rpm_register_count(active_channels),
                            i <= n,
                            channels@.len() == i,
                            same_config(before, *self),
                            forall|k: int|
                                0 <= k < i ==> read_channel(
                                    #[trigger] channels@[k],
                                    data@,
                                    n as int,
                                    k,
                                    before.thresholds(),
                                    before.last_values(),
                                    before.outlier_counts(),
                                    before.detection_threshold(),
                                    before.confirmation_threshold(),
                                ),
                            filter_after_reading(
                                before.last_values(),
                                before.outlier_counts(),
                                self.last_values(),
                                self.outlier_counts(),
                                data@,
                                i as u8,
                                before.detection_threshold(),
                                before.confirmation_threshold(),
                            ),
                        decreases n - i,
                    {
                        let raw = read_be16(data.as_slice(), 2 * i);
                        let id = (i + 1) as u8;
                        proof {
                            assert(map_at(self.last_values(), id) == map_at(before.last_values(), id));
                            assert(map_at(self.outlier_counts(), id) == map_at(before.outlier_counts(), id));
                        }
                        let ghost mid = *self;
                        let rpm_value = self.apply_outlier_detection(id, raw);
                        let threshold = if i < self.rpm_thresholds.len() {
                            self.rpm_thresholds[i]
                        } else {
                            DEFAULT_RPM_THRESHOLD
                        };
                        let freq_value = read_be16(data.as_slice(), 2 * n + 2 * i);
                        let pulse_config = read_be16(data.as_slice(), 4 * n + 2 * i);
                        channels.push(
                            RpmChannelData {
                                channel_id: id,
                                rpm_value,
                                freq_value,
                                pulse_config,
                                is_engine_running: rpm_value >= threshold,
                                rpm_threshold: threshold,
                                status: owned("OK"),
                                error_code: 0,
                                engine_duration_seconds: 0,
                            },
                        );
                        proof {
                            assert(rpm_value == filtered_value(
                                before.last_values(),
                                before.outlier_counts(),
                                id,
                                raw,
                                before.detection_threshold(),
                                before.confirmation_threshold(),
                            ));
                            assert forall|k: u8| 1 <= k <= id implies #[trigger] map_at(self.last_values(), k) == Some(
                                filtered_value(
                                    before.last_values(),
                                    before.outlier_counts(),
                                    k,
                                    be16_at(data@, 2 * (k - 1)),
                                    before.detection_threshold(),
                                    before.confirmation_threshold(),
                                ),
                            ) by {
                                if k < id {
                                    assert(map_at(mid.last_values(), k) == map_at(self.last_values(), k));
                                }
                            }
                            assert forall|k: u8| 1 <= k <= id implies #[trigger] map_at(self.outlier_counts(), k) == map_at(
                                counts_after(
                                    before.last_values(),
                                    before.outlier_counts(),
                                    k,
                                    be16_at(data@, 2 * (k - 1)),
                                    before.detection_threshold(),
                                    before.confirmation_threshold(),
                                ),
                                k,
                            ) by {
                                if k < id {
                                    assert(map_at(mid.outlier_counts(), k) == map_at(self.outlier_counts(), k));
                                }
                            }
                            assert forall|k: u8| !(1 <= k <= id) implies #[trigger] map_at(self.last_values(), k)
                                == map_at(before.last_values(), k) && map_at(self.outlier_counts(), k) == map_at(
                                before.outlier_counts(),
                                k,
                            ) by {
                                assert(map_at(mid.last_values(), k) == map_at(before.last_values(), k));
                                assert(map_at(mid.outlier_counts(), k) == map_at(before.outlier_counts(), k));
                            }
                        }
                        i += 1;
                    }
                    RpmData {
                        device_address: self.address,
                        channels,
                        total_channels: active_channels,
                        timestamp: now_seconds(),
                        device_status: owned("OK"),
                        global_error_code: 0,
                    }
                } else {
                    let mut i: usize = 0;
                    while i < n
                        invariant
                            n == active_channels,
                            thresholds == self.rpm_thresholds@,
                            i <= n,
                            channels@.len() == i,
                            forall|k: int| 0 <= k < i ==> failed_channel(#[trigger] channels@[k], k, thresholds, "Read Error"@),
                        decreases n - i,
                    {
                        let threshold = if i < self.rpm_thresholds.len() {
                            self.rpm_thresholds[i]
                        } else {
                            DEFAULT_RPM_THRESHOLD
                        };
                        channels.push(
                            RpmChannelData {
                                channel_id: (i + 1) as u8,
                                rpm_value: 0,
                                freq_value: 0,
                                pulse_config: 0,
                                is_engine_running: false,
                                rpm_threshold: threshold,
                                status: owned("Read Error"),
                                error_code: 1,
                                engine_duration_seconds: 0,
                            },
                        );
                        i += 1;
                    }
                    RpmData {
                        device_address: self.address,
                        channels,
                        total_channels: active_channels,
                        timestamp: now_seconds(),
                        device_status: owned("Invalid Data Length"),
                        global_error_code: 1,
                    }
                }
            },
            Err(_) => {
                let mut i: usize = 0;
                while i < n
                    invariant
                        n == active_channels,
                        thresholds == self.rpm_thresholds@,
                        i <= n,
                        channels@.len() == i,
                        forall|k: int|
                            0 <= k < i ==> failed_channel(#[trigger] channels@[k], k, thresholds, "Communication Error"@),
                    decreases n - i,
                {
                    let threshold = if i < self.rpm_thresholds.len() {
                        self.rpm_thresholds[i]
                    } else {
                        DEFAULT_RPM_THRESHOLD
                    };
                    channels.push(
                        RpmChannelData {
                            channel_id: (i + 1) as u8,
                            rpm_value: 0,
                            freq_value: 0,
                            pulse_config: 0,
                            is_engine_running: false,
                            rpm_threshold: threshold,
                            status: owned("Communication Error"),
                            error_code: 1,
                            engine_duration_seconds: 0,
                        },
                    );
                    i += 1;
                }
                self.last_rpm_values.clear();
                self.outlier_confirmation_counts.clear();
                RpmData {
                    device_address: self.address,
                    channels,
                    total_channels: active_channels,
                    timestamp: now_seconds(),
                    device_status: owned("Modbus Read Error"),
                    global_error_code: 1,
                }
            },
        }
    }
}

/// The number of readings of channel `ch` held back in a row.
pub open spec fn held_count(counts: Map<u8, u16>, ch: u8) -> u16 {
    if counts.contains_key(ch) {
        counts[ch]
    } else {
        0
    }
}

/// The filter state after `n` readings of the same value `v` on channel
/// `ch`, with the value let through by the last of them.
pub open spec fn feed(
    last: Map<u8, u16>,
    counts: Map<u8, u16>,
    ch: u8,
    v: u16,
    detect: u16,
    confirm: u16,
    n: nat,
) -> (Map<u8, u16>, Map<u8, u16>, u16)
    decreases n,
{
    if n == 0 {
        (last, counts, v)
    } else {
        let prev = feed(last, counts, ch, v, detect, confirm, (n - 1) as nat);
        let out = filtered_value(prev.0, prev.1, ch, v, detect, confirm);
        (prev.0.insert(ch, out), counts_after(prev.0, prev.1, ch, v, detect, confirm), out)
    }
}

/// The first reading of a channel is let through as it is.
pub proof fn lemma_first_reading_passes(last: Map<u8, u16>, counts: Map<u8, u16>, ch: u8, v: u16, detect: u16, confirm: u16)
    requires
        !last.contains_key(ch),
    ensures
        filtered_value(last, counts, ch, v, detect, confirm) == v,
        counts_after(last, counts, ch, v, detect, confirm) == counts,
{
}

/// A reading within `detect` of the last value let through passes as it is,
/// and ends any run of held-back readings.
pub proof fn lemma_small_change_passes(last: Map<u8, u16>, counts: Map<u8, u16>, ch: u8, v: u16, detect: u16, confirm: u16)
    requires
        last.contains_key(ch),
        (if v > last[ch] { v - last[ch] } else { last[ch] - v }) <= detect,
    ensures
        filtered_value(last, counts, ch, v, detect, confirm) == v,
        counts_after(last, counts, ch, v, detect, confirm) == counts.insert(ch, 0),
{
}

/// A jump of more than `detect` is replaced by the last value let through,
/// while fewer than `confirm` readings in a row have been held back.
pub proof fn lemma_spike_held(last: Map<u8, u16>, counts: Map<u8, u16>, ch: u8, v: u16, detect: u16, confirm: u16)
    requires
        last.contains_key(ch),
        (if v > last[ch] { v - last[ch] } else { last[ch] - v }) > detect,
        held_count(counts, ch) < confirm,
    ensures
        filtered_value(last, counts, ch, v, detect, confirm) == last[ch],
        counts_after(last, counts, ch, v, detect, confirm) == counts.insert(ch, (held_count(counts, ch) + 1) as u16),
{
}

proof fn lemma_feed_holds(
    last: Map<u8, u16>,
    counts: Map<u8, u16>,
    ch: u8,
    v: u16,
    detect: u16,
    confirm: u16,
    m: nat,
)
    requires
        last.contains_key(ch),
        (if v > last[ch] { v - last[ch] } else { last[ch] - v }) > detect,
        held_count(counts, ch) + m <= confirm,
    ensures
        feed(last, counts, ch, v, detect, confirm, m).0.contains_key(ch),
        feed(last, counts, ch, v, detect, confirm, m).0[ch] == last[ch],
        held_count(feed(last, counts, ch, v, detect, confirm, m).1, ch) == held_count(counts, ch) + m,
        m > 0 ==> feed(last, counts, ch, v, detect, confirm, m).2 == last[ch],
    decreases m,
{
    if m > 0 {
        lemma_feed_holds(last, counts, ch, v, detect, confirm, (m - 1) as nat);
    }
}

/// A new level is accepted once it has been held back `confirm` times in a
/// row: fed the same far-off value, the filter holds it back until the run
/// reaches `confirm` and lets it through on the next reading.
pub proof fn lemma_persistent_change_accepted(
    last: Map<u8, u16>,
    counts: Map<u8, u16>,
    ch: u8,
    v: u16,
    detect: u16,
    confirm: u16,
)
    requires
        last.contains_key(ch),
        (if v > last[ch] { v - last[ch] } else { last[ch] - v }) > detect,
        held_count(counts, ch) <= confirm,
    ensures
        forall|m: nat|
            1 <= m <= confirm - held_count(counts, ch) ==> #[trigger] feed(last, counts, ch, v, detect, confirm, m).2
                == last[ch],
        feed(last, counts, ch, v, detect, confirm, (confirm - held_count(counts, ch) + 1) as nat).2 == v,
{
    assert forall|m: nat| 1 <= m <= confirm - held_count(counts, ch) implies #[trigger] feed(
        last,
        counts,
        ch,
        v,
        detect,
        confirm,
        m,
    ).2 == last[ch] by {
        lemma_feed_holds(last, counts, ch, v, detect, confirm, m);
    }
    lemma_feed_holds(last, counts, ch, v, detect, confirm, (confirm - held_count(counts, ch)) as nat);
}

/// The big-endian word at byte `i` of a reply.
pub open spec fn reply_word(d: Seq<u8>, i: int) -> int {
    d[i] as int * 256 + d[i + 1] as int
}

/// In a full reply of a sensor of `tc` channels (speeds, then frequencies,
/// then pulse settings, one word per channel each), channel `i` of the
/// reading carries the frequency at byte `2 tc + 2 i` and the pulse setting at
/// byte `4 tc + 2 i`, and agrees with the plain register decode of the same
/// reply on every field but the filtered speed and what follows from it.
pub proof fn lemma_reading_register_layout(
    c: RpmChannelData,
    plain: RpmChannelData,
    d: Seq<u8>,
    tc: int,
    i: int,
    thresholds: Seq<u16>,
    last: Map<u8, u16>,
    counts: Map<u8, u16>,
    detect: u16,
    confirm: u16,
)
    requires
        0 <= i < tc,
        d.len() >= 2 * (3 * tc + 2),
        read_channel(c, d, tc, i, thresholds, last, counts, detect, confirm),
        decoded_channel(plain, d, tc, i, thresholds),
    ensures
        c.freq_value == reply_word(d, 2 * tc + 2 * i),
        c.pulse_config == reply_word(d, 4 * tc + 2 * i),
        plain.rpm_value == reply_word(d, 2 * i),
        c.channel_id == plain.channel_id,
        c.freq_value == plain.freq_value,
        c.pulse_config == plain.pulse_config,
        c.rpm_threshold == plain.rpm_threshold,
        c.status@ == plain.status@,
        c.error_code == plain.error_code,
        c.engine_duration_seconds == plain.engine_duration_seconds,
{
    assert forall|k: int| 0 <= k && k + 1 < d.len() implies #[trigger] be16_at(d, k) == reply_word(d, k) by {
        assert(0 <= d[k] as int * 256 + d[k + 1] as int <= 65535) by (nonlinear_arith)
            requires
                0 <= d[k] <= 255,
                0 <= d[k + 1] <= 255;
    }
    assert(be16_at(d, 2 * tc + 2 * i) == reply_word(d, 2 * tc + 2 * i));
    assert(be16_at(d, 4 * tc + 2 * i) == reply_word(d, 4 * tc + 2 * i));
    assert(be16_at(d, 2 * i) == reply_word(d, 2 * i));
}

} // verus!

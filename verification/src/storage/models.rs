//! Records kept in storage and sent to the telemetry service: readings,
//! engine run times, and the telemetry payload with its named fields and its
//! binary frame.

use vstd::prelude::*;

use crate::bytes::push_bytes;
use crate::devices::flowmeter::FlowmeterData;
use crate::devices::rpm::RpmChannelData;
use crate::text::{decimal, decimal_string, owned};
use crate::utils::clock::now_seconds;

verus! {

/// A flowmeter reading as stored; quantities are IEEE-754 bit patterns.
#[derive(Debug, Clone, Copy, PartialEq, Eq, Structural)]
pub struct FlowmeterReading {
    pub id: Option<i64>,
    pub device_address: u8,
    pub unix_timestamp: i64,
    pub mass_flow_rate: u32,
    pub density_flow: u32,
    pub temperature: u32,
    pub volume_flow_rate: u32,
    pub mass_total: u32,
    pub volume_total: u32,
    pub error_code: u16,
}

impl FlowmeterReading {
    /// The stored form of a reading of device `device_address`.
    pub fn from_flowmeter_data(device_address: u8, data: &FlowmeterData) -> (r: Self)
        ensures
            r == (FlowmeterReading {
                id: None,
                device_address,
                unix_timestamp: data.timestamp,
                mass_flow_rate: data.mass_flow_rate,
                density_flow: data.density_flow,
                temperature: data.temperature,
                volume_flow_rate: data.volume_flow_rate,
                mass_total: data.mass_total,
                volume_total: data.volume_total,
                error_code: data.error_code,
            }),
    {
        FlowmeterReading {
            id: None,
            device_address,
            unix_timestamp: data.unix_ts(),
            mass_flow_rate: data.mass_flow_rate,
            density_flow: data.density_flow,
            temperature: data.temperature,
            volume_flow_rate: data.volume_flow_rate,
            mass_total: data.mass_total,
            volume_total: data.volume_total,
            error_code: data.error_code,
        }
    }
}

/// One channel of an RPM reading as stored.
#[derive(Debug, Clone)]
pub struct RpmReading {
    pub id: Option<i64>,
    pub device_address: u8,
    pub channel: u8,
    pub engine_duration_minutes: u64,
    /// The channel number, as JSON.
    pub channel_data: String,
    pub global_error_code: u16,
    /// When the record was made, in seconds since the Unix epoch.
    pub created_at: Option<i64>,
}

impl RpmReading {
    /// The stored form of channel `rpm_data` of device `device_address`,
    /// made at `now`.
    pub fn from_rpm_data_at(device_address: u8, rpm_data: &RpmChannelData, engine_duration: u64, now: i64) -> (r: Self)
        ensures
            r.id is None,
            r.device_address == device_address,
            r.channel == rpm_data.channel_id,
            r.engine_duration_minutes == engine_duration,
            r.channel_data@ == decimal(rpm_data.channel_id as nat),
            r.global_error_code == rpm_data.error_code,
            r.created_at == Some(now),
    {
        RpmReading {
            id: None,
            device_address,
            channel: rpm_data.channel_id,
            engine_duration_minutes: engine_duration,
            channel_data: decimal_string(rpm_data.channel_id as u64),
            global_error_code: rpm_data.error_code,
            created_at: Some(now),
        }
    }

    /// The stored form of channel `rpm_data` of device `device_address`,
    /// stamped with the system clock.
    pub fn from_rpm_data(device_address: u8, rpm_data: &RpmChannelData, engine_duration: u64) -> (r: Self)
        ensures
            r.id is None,
            r.device_address == device_address,
            r.channel == rpm_data.channel_id,
            r.engine_duration_minutes == engine_duration,
            r.channel_data@ == decimal(rpm_data.channel_id as nat),
            r.global_error_code == rpm_data.error_code,
            r.created_at is Some,
    {
        Self::from_rpm_data_at(device_address, rpm_data, engine_duration, now_seconds())
    }
}

/// Statistics of the database.
#[derive(Debug, Clone, Copy, PartialEq, Eq, Structural)]
pub struct DatabaseStats {
    pub total_readings: i64,
    pub flowmeter_readings: i64,
    pub combined_readings: i64,
    pub active_devices: i64,
    pub database_size_bytes: u64,
    pub connection_count: usize,
}

impl DatabaseStats {
    /// The statistics made of the counts of flowmeter and combined readings
    /// and of active devices; the database's size is not measured and it has
    /// one connection.
    pub fn from_counts(flowmeter_readings: i64, combined_readings: i64, active_devices: i64) -> (s: Self)
        requires
            i64::MIN <= flowmeter_readings + combined_readings <= i64::MAX,
        ensures
            s == (DatabaseStats {
                total_readings: (flowmeter_readings + combined_readings) as i64,
                flowmeter_readings,
                combined_readings,
                active_devices,
                database_size_bytes: 0,
                connection_count: 1,
            }),
    {
        DatabaseStats {
            total_readings: flowmeter_readings + combined_readings,
            flowmeter_readings,
            combined_readings,
            active_devices,
            database_size_bytes: 0,
            connection_count: 1,
        }
    }
}

/// A named value of the telemetry payload.
#[derive(Debug, Clone)]
pub struct MtwsField {
    pub value: String,
    pub name: String,
}

impl MtwsField {
    pub fn new(name: String, value: String) -> (f: Self)
        ensures
            f.name == name,
            f.value == value,
    {
        MtwsField { value, name }
    }
}

/// The telemetry payload: its header values, its named fields in order, and
/// the binary frame when it is sent that way.
#[derive(Debug, Clone)]
pub struct MtwsPayload {
    pub sin: u16,
    pub name: String,
    pub is_forward: bool,
    pub fields: Vec<MtwsField>,
    pub min: u16,
    pub raw_data: Vec<u8>,
}

/// The fields of a payload as (name, value) pairs.
pub open spec fn field_views(fields: Seq<MtwsField>) -> Seq<(Seq<char>, Seq<char>)> {
    fields.map_values(|f: MtwsField| (f.name@, f.value@))
}

impl MtwsPayload {
    /// An empty payload: SIN 128, name "ReportMsg", not forwarded, MIN 1.
    pub fn new() -> (p: Self)
        ensures
            p.sin == 128,
            p.name@ == "ReportMsg"@,
            !p.is_forward,
            p.fields@.len() == 0,
            p.min == 1,
            p.raw_data@.len() == 0,
    {
        MtwsPayload {
            sin: 128,
            name: owned("ReportMsg"),
            is_forward: false,
            fields: Vec::new(),
            min: 1,
            raw_data: Vec::new(),
        }
    }

    /// Appends the field `name` with `value`.
    pub fn add_field(&mut self, name: String, value: String)
        ensures
            field_views(final(self).fields@) == field_views(old(self).fields@).push((name@, value@)),
            final(self).sin == old(self).sin,
            final(self).name == old(self).name,
            final(self).is_forward == old(self).is_forward,
            final(self).min == old(self).min,
            final(self).raw_data == old(self).raw_data,
    {
        self.fields.push(MtwsField::new(name, value));
        proof {
            assert(field_views(final(self).fields@) =~= field_views(old(self).fields@).push((name@, value@)));
        }
    }

    /// Appends `bytes` to the binary frame.
    pub fn add_raw_field(&mut self, bytes: &[u8])
        ensures
            final(self).raw_data@ == old(self).raw_data@ + bytes@,
            final(self).sin == old(self).sin,
            final(self).name == old(self).name,
            final(self).is_forward == old(self).is_forward,
            final(self).min == old(self).min,
            final(self).fields == old(self).fields,
    {
        push_bytes(&mut self.raw_data, bytes);
    }
}

/// The accumulated running time of one engine.
#[derive(Debug, Clone)]
pub struct EngineDuration {
    pub id: Option<i64>,
    pub device_address: u8,
    pub channel_id: u8,
    /// `device_address * 100 + channel_id`, kept in a byte.
    pub engine_address: u8,
    pub duration_seconds: u64,
    pub last_rpm_value: u16,
    pub is_running: bool,
    pub engine_type: String,
    pub rpm_threshold: u16,
    pub last_updated: i64,
    pub created_at: i64,
}

/// The engine address of channel `channel_id` of device `device_address`:
/// `device_address * 100 + channel_id`, cut to a byte.
pub open spec fn engine_address_of(device_address: u8, channel_id: u8) -> u8 {
    ((device_address * 100 + channel_id) % 256) as u8
}

impl EngineDuration {
    /// A new engine record made at `now`, with no running time yet.
    pub fn new_at(device_address: u8, channel_id: u8, engine_type: String, rpm_threshold: u16, now: i64) -> (e: Self)
        ensures
            e.id is None,
            e.device_address == device_address,
            e.channel_id == channel_id,
            e.engine_address == engine_address_of(device_address, channel_id),
            e.duration_seconds == 0,
            e.last_rpm_value == 0,
            !e.is_running,
            e.engine_type == engine_type,
            e.rpm_threshold == rpm_threshold,
            e.last_updated == now,
            e.created_at == now,
    {
        let wide: u16 = device_address as u16 * 100 + channel_id as u16;
        EngineDuration {
            id: None,
            device_address,
            channel_id,
            engine_address: (wide % 256) as u8,
            duration_seconds: 0,
            last_rpm_value: 0,
            is_running: false,
            engine_type,
            rpm_threshold,
            last_updated: now,
            created_at: now,
        }
    }

    /// A new engine record, stamped with the system clock.
    pub fn new(device_address: u8, channel_id: u8, engine_type: String, rpm_threshold: u16) -> (e: Self)
        ensures
            e.id is None,
            e.device_address == device_address,
            e.channel_id == channel_id,
            e.engine_address == engine_address_of(device_address, channel_id),
            e.duration_seconds == 0,
            e.last_rpm_value == 0,
            !e.is_running,
            e.engine_type == engine_type,
            e.rpm_threshold == rpm_threshold,
            e.last_updated == e.created_at,
    {
        Self::new_at(device_address, channel_id, engine_type, rpm_threshold, now_seconds())
    }

    /// The running time in whole minutes.
    pub fn duration_minutes(&self) -> (m: u64)
        ensures
            m == self.duration_seconds / 60,
    {
        self.duration_seconds / 60
    }
}

/// A change of an engine's running time, as recorded.
#[derive(Debug, Clone)]
pub struct EngineDurationHistory {
    pub id: Option<i64>,
    pub engine_address: u8,
    pub device_address: u8,
    pub channel_id: u8,
    pub duration_seconds_before: u64,
    pub duration_seconds_after: u64,
    pub rpm_value: u16,
    pub is_running: bool,
    pub change_reason: String,
    pub timestamp: i64,
}

} // verus!

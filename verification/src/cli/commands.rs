//! The decisions of the command line's subcommands: which values their
//! arguments stand for, what change of the telemetry settings they ask for, and
//! the status lines they show.
use vstd::prelude::*;

use crate::config::dynamic_manager::ConfigTarget;
use crate::services::api_service::MtwsStatus;
use crate::text::{
    decimal, decimal_string, owned, parse_unsigned, parse_unsigned_checked, parse_unsigned_max, str_eq, strip_prefix,
    strip_prefix_spec,
};
use crate::utils::error::ModbusError;

verus! {

/// A change of the telemetry settings asked for on the command line.
#[derive(Debug, Clone)]
pub struct MtwsConfigUpdate {
    pub interval_seconds: Option<u64>,
    pub endpoint_url: Option<String>,
}

/// Why a change of the telemetry settings is refused before it is sent.
#[derive(Debug, Clone)]
pub enum MtwsUpdateRefusal {
    /// The interval given is no unsigned integer.
    InvalidInterval(String),
    /// Neither an interval nor an endpoint was given.
    NothingToUpdate,
}

/// The text shown for a refused change.
pub open spec fn refusal_message(r: MtwsUpdateRefusal) -> Seq<char> {
    match r {
        MtwsUpdateRefusal::InvalidInterval(s) => "Invalid interval value: "@ + s@,
        MtwsUpdateRefusal::NothingToUpdate => "No configuration parameters provided"@,
    }
}

impl MtwsUpdateRefusal {
    /// The text shown for this refusal.
    pub fn message(&self) -> (m: String)
        ensures
            m@ == refusal_message(*self),
    {
        match self {
            MtwsUpdateRefusal::InvalidInterval(s) => {
                let mut m = owned("Invalid interval value: ");
                m.append(s.as_str());
                m
            },
            MtwsUpdateRefusal::NothingToUpdate => owned("No configuration parameters provided"),
        }
    }
}

/// Whether an optional argument reads as a `u64`, where it is given.
pub open spec fn interval_readable(interval: Option<&str>) -> bool {
    match interval {
        Some(s) => parse_unsigned(s@, u64::MAX as nat) is Some,
        None => true,
    }
}

/// The change asked for by the interval and endpoint arguments of
/// `mtws config set`: the interval is read first and refused where it is no
/// `u64`; a request that names neither is refused.
pub fn mtws_config_update(interval: Option<&str>, endpoint: Option<&str>) -> (r: Result<
    MtwsConfigUpdate,
    MtwsUpdateRefusal,
>)
    ensures
        r is Ok <==> interval_readable(interval) && (interval is Some || endpoint is Some),
        interval matches Some(s) ==> (parse_unsigned(s@, u64::MAX as nat) is None ==> (r matches Err(
            MtwsUpdateRefusal::InvalidInterval(t),
        ) && t@ == s@)),
        interval is None && endpoint is None ==> (r matches Err(MtwsUpdateRefusal::NothingToUpdate)),
        r matches Ok(u) ==> (match interval {
            Some(s) => u.interval_seconds matches Some(v) && parse_unsigned(s@, u64::MAX as nat)
                == Some(v as nat),
            None => u.interval_seconds is None,
        }) && (match endpoint {
            Some(e) => u.endpoint_url matches Some(x) && x@ == e@,
            None => u.endpoint_url is None,
        }),
{
    let mut interval_seconds: Option<u64> = None;
    if let Some(s) = interval {
        match parse_unsigned_checked(s, u64::MAX) {
            Ok(v) => {
                interval_seconds = Some(v);
            },
            Err(_) => {
                return Err(MtwsUpdateRefusal::InvalidInterval(owned(s)));
            },
        }
    }
    let endpoint_url: Option<String> = match endpoint {
        Some(e) => Some(owned(e)),
        None => None,
    };
    if interval_seconds.is_none() && endpoint_url.is_none() {
        return Err(MtwsUpdateRefusal::NothingToUpdate);
    }
    Ok(MtwsConfigUpdate { interval_seconds, endpoint_url })
}

/// The lines `mtws status` shows for a status of the telemetry service.
pub open spec fn status_lines(s: MtwsStatus) -> Seq<Seq<char>> {
    seq![
        if s.is_running {
            "  Status: 🟢 Running"@
        } else {
            "  Status: 🔴 Stopped"@
        },
        "  Interval: "@ + decimal(s.interval_seconds as nat) + " seconds"@,
        "  Endpoint: "@ + s.endpoint_url@,
        if s.enabled {
            "  Enabled: Yes"@
        } else {
            "  Enabled: No"@
        },
    ]
}

/// The lines `mtws status` shows for `status`.
pub fn mtws_status_lines(status: &MtwsStatus) -> (lines: Vec<String>)
    ensures
        lines@.map_values(|l: String| l@) == status_lines(*status),
{
    let mut lines: Vec<String> = Vec::new();
    if status.is_running {
        lines.push(owned("  Status: 🟢 Running"));
    } else {
        lines.push(owned("  Status: 🔴 Stopped"));
    }
    let mut interval = owned("  Interval: ");
    interval.append(decimal_string(status.interval_seconds).as_str());
    interval.append(" seconds");
    lines.push(interval);
    let mut endpoint = owned("  Endpoint: ");
    endpoint.append(status.endpoint_url.as_str());
    lines.push(endpoint);
    if status.enabled {
        lines.push(owned("  Enabled: Yes"));
    } else {
        lines.push(owned("  Enabled: No"));
    }
    proof {
        assert(lines@.map_values(|l: String| l@) =~= status_lines(*status));
    }
    lines
}

/// The line `rpm status` shows for one device: its address, name, number of
/// channels, number of running engines and device status.
pub open spec fn rpm_device_line(address: u8, name: Seq<char>, channels: u64, running: u64, status: Seq<
    char,
>) -> Seq<char> {
    "  Device "@ + decimal(address as nat) + " ("@ + name + "): "@ + decimal(channels as nat)
        + " channels, "@ + decimal(running as nat) + " running, Status: "@ + status
}

/// The line `rpm status` shows for one device.
pub fn rpm_device_status_line(address: u8, name: &str, channels: u64, running: u64, status: &str) -> (r:
    String)
    ensures
        r@ == rpm_device_line(address, name@, channels, running, status@),
{
    let mut r = owned("  Device ");
    r.append(decimal_string(address as u64).as_str());
    r.append(" (");
    r.append(name);
    r.append("): ");
    r.append(decimal_string(channels).as_str());
    r.append(" channels, ");
    r.append(decimal_string(running).as_str());
    r.append(" running, Status: ");
    r.append(status);
    r
}

/// The line `rpm status` shows for one channel of a device.
pub open spec fn rpm_channel_line(channel: u64, rpm: u64, threshold: u64, running: bool) -> Seq<char> {
    "    Channel "@ + decimal(channel as nat) + ": "@ + decimal(rpm as nat) + " RPM (threshold: "@
        + decimal(threshold as nat) + ") - "@ + if running {
        "🟢 RUNNING"@
    } else {
        "🔴 STOPPED"@
    }
}

/// The line `rpm status` shows for one channel.
pub fn rpm_channel_status_line(channel: u64, rpm: u64, threshold: u64, running: bool) -> (r: String)
    ensures
        r@ == rpm_channel_line(channel, rpm, threshold, running),
{
    let mut r = owned("    Channel ");
    r.append(decimal_string(channel).as_str());
    r.append(": ");
    r.append(decimal_string(rpm).as_str());
    r.append(" RPM (threshold: ");
    r.append(decimal_string(threshold).as_str());
    r.append(") - ");
    if running {
        r.append("🟢 RUNNING");
    } else {
        r.append("🔴 STOPPED");
    }
    r
}

/// The device and channel that `rpm read` asks for: the address is required
/// and must be a `u8`; a channel that is given but no `u8` stands for channel 0.
pub fn rpm_read_target(address: Option<&str>, channel: Option<&str>) -> (r: Result<
    (u8, Option<u8>),
    ModbusError,
>)
    ensures
        address is None ==> (r matches Err(ModbusError::InvalidData(m)) && m@
            == "Address is required"@),
        address matches Some(a) ==> (parse_unsigned(a@, 255) is None ==> (r matches Err(
            ModbusError::InvalidData(m),
        ) && m@ == "Invalid address format"@)),
        address matches Some(a) ==> (parse_unsigned(a@, 255) is Some ==> (r matches Ok((addr, ch))
            && Some(addr as nat) == parse_unsigned(a@, 255) && (match channel {
            None => ch is None,
            Some(c) => ch == Some(
                match parse_unsigned(c@, 255) {
                    Some(v) => v as u8,
                    None => 0u8,
                },
            ),
        }))),
{
    let a = match address {
        Some(a) => a,
        None => {
            return Err(ModbusError::InvalidData(owned("Address is required")));
        },
    };
    let addr = match parse_unsigned_max(a, 255) {
        Some(v) => v as u8,
        None => {
            return Err(ModbusError::InvalidData(owned("Invalid address format")));
        },
    };
    let ch: Option<u8> = match channel {
        Some(c) => match parse_unsigned_max(c, 255) {
            Some(v) => Some(v as u8),
            None => Some(0u8),
        },
        None => None,
    };
    Ok((addr, ch))
}

/// The engine whose run time `engine duration reset` clears: the address must
/// be a `u8`.
pub fn engine_reset_address(address: &str) -> (r: Result<u8, ModbusError>)
    ensures
        parse_unsigned(address@, 255) is None ==> (r matches Err(ModbusError::DeviceNotFound(m)) && m@
            == "Invalid address format"@),
        parse_unsigned(address@, 255) matches Some(v) ==> r == Ok::<u8, ModbusError>(v as u8),
{
    match parse_unsigned_max(address, 255) {
        Some(v) => Ok(v as u8),
        None => Err(ModbusError::DeviceNotFound(owned("Invalid address format"))),
    }
}

/// The target that a name on the command line stands for, outputs aside:
/// `serial`, `monitoring`, `site`, `system`, `gps`, or `device:ADDRESS` with a
/// `u8` address.
pub open spec fn config_target_named(s: Seq<char>) -> Option<ConfigTarget> {
    if s == "serial"@ {
        Some(ConfigTarget::Serial)
    } else if s == "monitoring"@ {
        Some(ConfigTarget::Monitoring)
    } else if s == "site"@ {
        Some(ConfigTarget::Site)
    } else if s == "system"@ {
        Some(ConfigTarget::System)
    } else if s == "gps"@ {
        Some(ConfigTarget::Gps)
    } else {
        match strip_prefix_spec(s, "device:"@) {
            Some(a) => match parse_unsigned(a, 255) {
                Some(v) => Some(ConfigTarget::Device { address: v as u8 }),
                None => None,
            },
            None => None,
        }
    }
}

/// Whether `s` names an output, `output:TYPE`, and none of the other targets.
pub open spec fn names_output(s: Seq<char>) -> bool {
    &&& s != "serial"@
    &&& s != "monitoring"@
    &&& s != "site"@
    &&& s != "system"@
    &&& s != "gps"@
    &&& strip_prefix_spec(s, "device:"@) is None
    &&& strip_prefix_spec(s, "output:"@) is Some
}

/// The target named `s` on the command line, if any.
pub fn parse_config_target(s: &str) -> (r: Option<ConfigTarget>)
    ensures
        !names_output(s@) ==> r == config_target_named(s@),
        names_output(s@) ==> (r matches Some(ConfigTarget::Output { output_type }) && Some(output_type@)
            == strip_prefix_spec(s@, "output:"@)),
{
    if str_eq(s, "serial") {
        Some(ConfigTarget::Serial)
    } else if str_eq(s, "monitoring") {
        Some(ConfigTarget::Monitoring)
    } else if str_eq(s, "site") {
        Some(ConfigTarget::Site)
    } else if str_eq(s, "system") {
        Some(ConfigTarget::System)
    } else if str_eq(s, "gps") {
        Some(ConfigTarget::Gps)
    } else if let Some(a) = strip_prefix(s, "device:") {
        match parse_unsigned_max(a.as_str(), 255) {
            Some(v) => Some(ConfigTarget::Device { address: v as u8 }),
            None => None,
        }
    } else {
        match strip_prefix(s, "output:") {
            Some(t) => Some(ConfigTarget::Output { output_type: t }),
            None => None,
        }
    }
}

} // verus!

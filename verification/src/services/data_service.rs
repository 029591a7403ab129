//! The decisions of the data service: which configured devices it polls and
//! how, which UUID each polled address reports under, and which device types
//! each reading cycle reads.
use vstd::prelude::*;

use crate::config::dynamic_manager::{equals_ignoring_case, reads_ignoring_case};
use crate::config::settings::{is_enabled, rpm_channel_config, Config, DeviceConfig};
use crate::devices::flowmeter::FlowmeterDevice;
use crate::devices::rpm::RpmDevice;
use crate::text::str_eq;

verus! {

/// The kinds of device the service polls.
#[derive(Debug, Clone, Copy, PartialEq, Eq, Structural)]
pub enum DeviceKind {
    Flowmeter,
    Rpm,
}

/// How the service polls a configured device: enabled flowmeters and RPM
/// sensors, their type read without regard to ASCII case; others are not
/// polled.
pub open spec fn registered_kind(d: DeviceConfig) -> Option<DeviceKind> {
    if !d.enabled {
        None
    } else if reads_ignoring_case(d.device_type@, "flowmeter"@) {
        Some(DeviceKind::Flowmeter)
    } else if reads_ignoring_case(d.device_type@, "rpm"@) {
        Some(DeviceKind::Rpm)
    } else {
        None
    }
}

pub open spec fn is_registered(d: DeviceConfig) -> bool {
    registered_kind(d) is Some
}

/// A device the service polls.
pub enum PolledDevice {
    Flowmeter(FlowmeterDevice),
    Rpm(RpmDevice),
}

/// Whether `p` is the device the service builds for configuration `d`, in a
/// configuration whose devices are `devs`: a flowmeter with the device's
/// address and name, or an RPM sensor configured with the channel settings
/// the configuration gives for its address.
pub open spec fn built_for(p: PolledDevice, d: DeviceConfig, devs: Seq<DeviceConfig>) -> bool {
    match registered_kind(d) {
        Some(DeviceKind::Flowmeter) => p matches PolledDevice::Flowmeter(f) && f.address == d.address && f.name
            == d.name && f.start_register == 244 && f.register_count == 22 && f.reset_coil == 2,
        Some(DeviceKind::Rpm) => p matches PolledDevice::Rpm(r) && r.configured_as(
            d.address,
            d.name@,
            d.location@,
            rpm_channel_config(devs, d.address).0,
            rpm_channel_config(devs, d.address).1,
        ),
        None => false,
    }
}

/// The UUID reported for `address`: that of the last polled device at that
/// address.
pub open spec fn uuid_of(entries: Seq<(u8, String)>, address: u8) -> Option<Seq<char>>
    decreases entries.len(),
{
    if entries.len() == 0 {
        None
    } else if entries.last().0 == address {
        Some(entries.last().1@)
    } else {
        uuid_of(entries.drop_last(), address)
    }
}

/// The devices the service polls, in configuration order, and the address
/// and UUID of each.
pub struct DeviceRegistry {
    pub devices: Vec<PolledDevice>,
    pub address_uuids: Vec<(u8, String)>,
}

/// Whether `r` registers exactly the polled devices of `config`.
pub open spec fn registry_of(r: DeviceRegistry, config: Config) -> bool {
    let sel = config.devices@.filter(|d: DeviceConfig| is_registered(d));
    &&& r.devices@.len() == sel.len()
    &&& r.address_uuids@.len() == sel.len()
    &&& forall|i: int| 0 <= i < sel.len() ==> #[trigger] built_for(r.devices@[i], sel[i], config.devices@)
    &&& forall|i: int|
        0 <= i < sel.len() ==> (#[trigger] r.address_uuids@[i]).0 == sel[i].address && r.address_uuids@[i].1
            == sel[i].uuid
}

fn kind_of(d: &DeviceConfig) -> (k: Option<DeviceKind>)
    ensures
        k == registered_kind(*d),
{
    if !d.enabled {
        None
    } else if equals_ignoring_case(d.device_type.as_str(), "flowmeter") {
        Some(DeviceKind::Flowmeter)
    } else if equals_ignoring_case(d.device_type.as_str(), "rpm") {
        Some(DeviceKind::Rpm)
    } else {
        None
    }
}

/// Builds the devices the service polls from the configuration: each enabled
/// flowmeter, and each enabled RPM sensor with its configured channels and
/// thresholds; other devices are passed over.
pub fn build_device_registry(config: &Config) -> (r: DeviceRegistry)
    ensures
        registry_of(r, *config),
{
    let ghost f = |d: DeviceConfig| is_registered(d);
    let mut devices: Vec<PolledDevice> = Vec::new();
    let mut address_uuids: Vec<(u8, String)> = Vec::new();
    let mut i: usize = 0;
    while i < config.devices.len()
        invariant
            i <= config.devices.len(),
            f == (|d: DeviceConfig| is_registered(d)),
            devices@.len() == config.devices@.take(i as int).filter(f).len(),
            address_uuids@.len() == devices@.len(),
            forall|j: int|
                0 <= j < devices@.len() ==> #[trigger] built_for(
                    devices@[j],
                    config.devices@.take(i as int).filter(f)[j],
                    config.devices@,
                ),
            forall|j: int|
                0 <= j < devices@.len() ==> (#[trigger] address_uuids@[j]).0 == config.devices@.take(
                    i as int,
                ).filter(f)[j].address && address_uuids@[j].1 == config.devices@.take(i as int).filter(f)[j].uuid,
        decreases config.devices.len() - i,
    {
        let d = &config.devices[i];
        proof {
            assert(config.devices@.take(i + 1) =~= config.devices@.take(i as int).push(*d));
            config.devices@.take(i as int).lemma_filter_push(*d, f);
        }
        match kind_of(d) {
            Some(DeviceKind::Flowmeter) => {
                devices.push(PolledDevice::Flowmeter(FlowmeterDevice::new(d.address, d.name.clone())));
                address_uuids.push((d.address, d.uuid.clone()));
            },
            Some(DeviceKind::Rpm) => {
                let (total_channels, thresholds) = config.get_rpm_channel_config(d.address);
                let dev = RpmDevice::with_config(
                    d.address,
                    d.name.clone(),
                    d.location.clone(),
                    total_channels,
                    thresholds,
                );
                devices.push(PolledDevice::Rpm(dev));
                address_uuids.push((d.address, d.uuid.clone()));
            },
            None => {},
        }
        i += 1;
    }
    proof {
        assert(config.devices@.take(config.devices.len() as int) =~= config.devices@);
    }
    DeviceRegistry { devices, address_uuids }
}

impl DeviceRegistry {
    /// The UUID data read at `address` is reported under.
    pub fn uuid_for_address(&self, address: u8) -> (r: Option<&String>)
        ensures
            match uuid_of(self.address_uuids@, address) {
                Some(u) => r matches Some(s) && s@ == u,
                None => r is None,
            },
    {
        let mut i: usize = self.address_uuids.len();
        proof {
            assert(self.address_uuids@.take(i as int) =~= self.address_uuids@);
        }
        while i > 0
            invariant
                i <= self.address_uuids.len(),
                uuid_of(self.address_uuids@, address) == uuid_of(self.address_uuids@.take(i as int), address),
            decreases i,
        {
            proof {
                assert(self.address_uuids@.take(i as int).drop_last() =~= self.address_uuids@.take(i - 1));
                assert(self.address_uuids@.take(i as int).last() == self.address_uuids@[i - 1]);
            }
            if self.address_uuids[i - 1].0 == address {
                return Some(&self.address_uuids[i - 1].1);
            }
            i -= 1;
        }
        None
    }

    /// An address whose data is reported under `uuid`, if there is one.
    pub fn address_for_uuid(&self, uuid: &str) -> (r: Option<u8>)
        ensures
            r matches Some(a) ==> uuid_of(self.address_uuids@, a) == Some(uuid@),
            r is None ==> forall|a: u8| uuid_of(self.address_uuids@, a) != Some(uuid@),
    {
        let mut i: usize = 0;
        while i < self.address_uuids.len()
            invariant
                i <= self.address_uuids.len(),
                forall|j: int|
                    0 <= j < i ==> uuid_of(self.address_uuids@, (#[trigger] self.address_uuids@[j]).0) != Some(
                        uuid@,
                    ),
            decreases self.address_uuids.len() - i,
        {
            let a = self.address_uuids[i].0;
            match self.uuid_for_address(a) {
                Some(u) => {
                    if str_eq(u.as_str(), uuid) {
                        return Some(a);
                    }
                },
                None => {},
            }
            i += 1;
        }
        proof {
            assert forall|a: u8| uuid_of(self.address_uuids@, a) != Some(uuid@) by {
                lemma_uuid_of_source(self.address_uuids@, a);
            }
        }
        None
    }
}

/// A UUID reported for an address comes from an entry at that address.
proof fn lemma_uuid_of_source(entries: Seq<(u8, String)>, a: u8)
    ensures
        uuid_of(entries, a) is Some ==> exists|j: int| 0 <= j < entries.len() && (#[trigger] entries[j]).0 == a,
    decreases entries.len(),
{
    if entries.len() > 0 && entries.last().0 != a {
        lemma_uuid_of_source(entries.drop_last(), a);
        if uuid_of(entries, a) is Some {
            let j = choose|j: int| 0 <= j < entries.drop_last().len() && (#[trigger] entries.drop_last()[j]).0 == a;
            assert(entries[j] == entries.drop_last()[j]);
        }
    } else if entries.len() > 0 {
        assert(entries[entries.len() - 1].0 == a);
    }
}


/// What a reading cycle does for one enabled device.
pub enum ReadStep {
    /// Read a flowmeter and store its data under the UUID.
    Flowmeter { device: FlowmeterDevice, uuid: String },
    /// Read an RPM sensor (with the default two channels) and store its data
    /// under the UUID.
    Rpm { device: RpmDevice, uuid: String },
    /// A GPS entry: its position comes from the GPS service, not from here.
    Gps,
    /// A type the cycle does not read.
    Unknown(String),
}

/// Whether `s` is the step a reading cycle takes for the enabled device `d`;
/// the type is matched exactly.
pub open spec fn step_for(s: ReadStep, d: DeviceConfig) -> bool {
    if d.device_type@ == "flowmeter"@ {
        s matches ReadStep::Flowmeter { device, uuid } && device.address == d.address && device.name == d.name
            && device.start_register == 244 && device.register_count == 22 && device.reset_coil == 2 && uuid
            == d.uuid
    } else if d.device_type@ == "rpm"@ {
        s matches ReadStep::Rpm { device, uuid } && device.configured_as(
            d.address,
            d.name@,
            "Unknown"@,
            2,
            seq![500u16, 500u16],
        ) && uuid == d.uuid
    } else if d.device_type@ == "gps"@ {
        s is Gps
    } else {
        s matches ReadStep::Unknown(t) && t == d.device_type
    }
}

/// The enabled devices of `devs`, in order.
pub open spec fn enabled_devices(devs: Seq<DeviceConfig>) -> Seq<DeviceConfig> {
    devs.filter(|d: DeviceConfig| is_enabled(d))
}

/// The steps of one reading cycle: one for each enabled device, in order.
pub fn reading_plan(config: &Config) -> (r: Vec<ReadStep>)
    ensures
        r@.len() == enabled_devices(config.devices@).len(),
        forall|i: int| 0 <= i < r@.len() ==> #[trigger] step_for(r@[i], enabled_devices(config.devices@)[i]),
{
    let enabled = config.get_enabled_devices();
    let ghost en = config.devices@.filter(|d: DeviceConfig| is_enabled(d));
    let mut r: Vec<ReadStep> = Vec::new();
    let mut i: usize = 0;
    proof {
        assert(enabled@.len() == en.len());
    }
    while i < enabled.len()
        invariant
            i <= enabled.len(),
            enabled@.map_values(|d: &DeviceConfig| *d) == en,
            enabled@.len() == en.len(),
            r@.len() == i,
            forall|j: int| 0 <= j < i ==> #[trigger] step_for(r@[j], en[j]),
        decreases enabled.len() - i,
    {
        let d = enabled[i];
        proof {
            assert(en[i as int] == *d);
        }
        let t = d.device_type.as_str();
        let step = if str_eq(t, "flowmeter") {
            ReadStep::Flowmeter { device: FlowmeterDevice::new(d.address, d.name.clone()), uuid: d.uuid.clone() }
        } else if str_eq(t, "rpm") {
            let device = RpmDevice::new(d.address, d.name.clone());
            proof {
                assert forall|k: int| 0 <= k < device.thresholds().len() implies #[trigger] device.thresholds()[k]
                    == crate::devices::rpm::threshold_for(seq![500u16, 500u16], k) by {}
            }
            ReadStep::Rpm { device, uuid: d.uuid.clone() }
        } else if str_eq(t, "gps") {
            ReadStep::Gps
        } else {
            ReadStep::Unknown(d.device_type.clone())
        };
        r.push(step);
        i += 1;
    }
    r
}

/// Whether `d` is an enabled device of exactly type `t`.
pub open spec fn enabled_of_type(d: DeviceConfig, t: Seq<char>) -> bool {
    d.enabled && d.device_type@ == t
}

fn devices_of_type<'a>(config: &'a Config, t: &str) -> (r: Vec<&'a DeviceConfig>)
    ensures
        r@.map_values(|d: &DeviceConfig| *d) == config.devices@.filter(|d: DeviceConfig| enabled_of_type(d, t@)),
{
    let ghost f = |d: DeviceConfig| enabled_of_type(d, t@);
    let mut r: Vec<&DeviceConfig> = Vec::new();
    let mut i: usize = 0;
    while i < config.devices.len()
        invariant
            i <= config.devices.len(),
            f == (|d: DeviceConfig| enabled_of_type(d, t@)),
            r@.map_values(|d: &DeviceConfig| *d) == config.devices@.take(i as int).filter(f),
        decreases config.devices.len() - i,
    {
        let d = &config.devices[i];
        proof {
            assert(config.devices@.take(i + 1) =~= config.devices@.take(i as int).push(*d));
            config.devices@.take(i as int).lemma_filter_push(*d, f);
        }
        if d.enabled && str_eq(d.device_type.as_str(), t) {
            let ghost old_r = r@;
            r.push(d);
            proof {
                assert(r@.map_values(|d: &DeviceConfig| *d) =~= old_r.map_values(|d: &DeviceConfig| *d).push(*d));
            }
        }
        i += 1;
    }
    proof {
        assert(config.devices@.take(config.devices.len() as int) =~= config.devices@);
    }
    r
}

/// The enabled RPM sensors, in order.
pub fn get_rpm_devices(config: &Config) -> (r: Vec<&DeviceConfig>)
    ensures
        r@.map_values(|d: &DeviceConfig| *d) == config.devices@.filter(|d: DeviceConfig| enabled_of_type(d, "rpm"@)),
{
    devices_of_type(config, "rpm")
}

/// The enabled flowmeters, in order.
pub fn get_flowmeter_devices(config: &Config) -> (r: Vec<&DeviceConfig>)
    ensures
        r@.map_values(|d: &DeviceConfig| *d) == config.devices@.filter(
            |d: DeviceConfig| enabled_of_type(d, "flowmeter"@),
        ),
{
    devices_of_type(config, "flowmeter")
}

/// Reading cycles between two checks of the GPS service.
pub const GPS_CHECK_EVERY: u32 = 3;

/// Counts one reading cycle: the new count, and whether the GPS service is
/// checked now (every third cycle, after which the count restarts).
pub fn gps_check_step(counter: u32) -> (r: (u32, bool))
    requires
        counter < GPS_CHECK_EVERY,
    ensures
        counter + 1 >= GPS_CHECK_EVERY ==> r == (0u32, true),
        counter + 1 < GPS_CHECK_EVERY ==> r == ((counter + 1) as u32, false),
{
    let n = counter + 1;
    if n >= GPS_CHECK_EVERY {
        (0, true)
    } else {
        (n, false)
    }
}

} // verus!

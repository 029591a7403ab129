//! Building a configuration from command-line arguments: the serial port,
//! baud rate, polling interval and a comma-separated list of device
//! addresses.
use vstd::prelude::*;

use super::metadata::Metadata;
use super::settings::{
    addresses_of, generate_uuid, is_default_config, is_random_uuid, strings_from, views, Config,
    DeviceConfig,
};
use crate::text::{
    concat, decimal, decimal_string, owned, parse_error, parse_unsigned, parse_unsigned_checked, split_char,
    split_spec, trim, trim_spec, IntErrorKind,
};

verus! {

/// What reading one comma-separated piece as a device address gives: the
/// piece is trimmed and parsed as a `u8`.
pub open spec fn address_result(p: Seq<char>) -> Result<u8, IntErrorKind> {
    match parse_unsigned(trim_spec(p), 255) {
        Some(v) => Ok(v as u8),
        None => Err(parse_error(trim_spec(p), 255)),
    }
}

/// The addresses of `parts`, or the failure of the first that is none.
pub open spec fn addresses_result(parts: Seq<Seq<char>>) -> Result<Seq<u8>, IntErrorKind>
    decreases parts.len(),
{
    if parts.len() == 0 {
        Ok(Seq::<u8>::empty())
    } else {
        match addresses_result(parts.drop_last()) {
            Err(k) => Err(k),
            Ok(r) => match address_result(parts.last()) {
                Err(k) => Err(k),
                Ok(a) => Ok(r.push(a)),
            },
        }
    }
}

/// What reading a comma-separated address list gives.
pub open spec fn device_list_result(s: Seq<char>) -> Result<Seq<u8>, IntErrorKind> {
    addresses_result(split_spec(s, ','))
}

proof fn lemma_addresses_err_prefix(parts: Seq<Seq<char>>, n: int, k: IntErrorKind)
    requires
        0 <= n <= parts.len(),
        addresses_result(parts.take(n)) == Err::<Seq<u8>, IntErrorKind>(k),
    ensures
        addresses_result(parts) == Err::<Seq<u8>, IntErrorKind>(k),
    decreases parts.len() - n,
{
    if n < parts.len() {
        assert(parts.take(n + 1).drop_last() =~= parts.take(n));
        lemma_addresses_err_prefix(parts, n + 1, k);
    } else {
        assert(parts.take(n) =~= parts);
    }
}

/// Reads a comma-separated list of device addresses, each piece trimmed and
/// parsed as a `u8`; the first piece that is no address decides the error.
pub fn parse_device_list(s: &str) -> (r: Result<Vec<u8>, IntErrorKind>)
    ensures
        match device_list_result(s@) {
            Ok(a) => r matches Ok(v) && v@ == a,
            Err(k) => r == Err::<Vec<u8>, IntErrorKind>(k),
        },
{
    let parts = split_char(s, ',');
    let ghost ps = parts@.map_values(|p: String| p@);
    let mut out: Vec<u8> = Vec::new();
    let mut i: usize = 0;
    proof {
        assert(ps.take(0) =~= Seq::<Seq<char>>::empty());
    }
    while i < parts.len()
        invariant
            i <= parts.len(),
            ps == parts@.map_values(|p: String| p@),
            ps == split_spec(s@, ','),
            addresses_result(ps.take(i as int)) == Ok::<Seq<u8>, IntErrorKind>(out@),
        decreases parts.len() - i,
    {
        proof {
            assert(ps.take(i + 1).drop_last() =~= ps.take(i as int));
            assert(ps.take(i + 1).last() == parts@[i as int]@);
        }
        let t = trim(parts[i].as_str());
        match parse_unsigned_checked(t.as_str(), 255) {
            Ok(v) => {
                out.push(v as u8);
            },
            Err(k) => {
                proof {
                    lemma_addresses_err_prefix(ps, i + 1, k);
                }
                return Err(k);
            },
        }
        i += 1;
    }
    proof {
        assert(ps.take(i as int) =~= ps);
    }
    Ok(out)
}

/// The addresses of `addrs`, in order of first appearance, that neither
/// `known` holds nor appear earlier.
pub open spec fn new_addresses(known: Seq<u8>, addrs: Seq<u8>) -> Seq<u8>
    decreases addrs.len(),
{
    if addrs.len() == 0 {
        Seq::<u8>::empty()
    } else {
        let prev = new_addresses(known, addrs.drop_last());
        if known.contains(addrs.last()) || prev.contains(addrs.last()) {
            prev
        } else {
            prev.push(addrs.last())
        }
    }
}

/// A device created for an address named on the command line: a flowmeter
/// with a fresh UUID, named after its address, at an unknown location,
/// reading mass flow and temperature.
pub open spec fn is_cli_device(d: DeviceConfig, a: u8) -> bool {
    &&& is_random_uuid(d.uuid@)
    &&& d.address == a
    &&& d.device_type@ == "flowmeter"@
    &&& d.name@ == "Device "@ + decimal(a as nat)
    &&& d.location@ == "Unknown"@
    &&& d.enabled
    &&& d.polling_interval is None
    &&& views(d.parameters@) == seq!["MassFlowRate"@, "Temperature"@]
    &&& d.metadata.entries@.len() == 0
}

/// Whether `new` holds the devices of `old` whose address is in `addrs`, in
/// order, followed by a new device for each address of `addrs` that no device
/// of `old` has.
pub open spec fn devices_for_addresses(new: Seq<DeviceConfig>, old: Seq<DeviceConfig>, addrs: Seq<u8>) -> bool {
    let kept = old.filter(|d: DeviceConfig| addrs.contains(d.address));
    let added = new_addresses(addresses_of(old), addrs);
    &&& new.len() == kept.len() + added.len()
    &&& forall|i: int| 0 <= i < kept.len() ==> #[trigger] new[i].same(kept[i])
    &&& forall|j: int| 0 <= j < added.len() ==> #[trigger] is_cli_device(new[kept.len() + j], added[j])
}

fn contains_u8(v: &Vec<u8>, a: u8) -> (r: bool)
    ensures
        r == v@.contains(a),
{
    let mut i: usize = 0;
    while i < v.len()
        invariant
            i <= v.len(),
            forall|j: int| 0 <= j < i ==> v@[j] != a,
        decreases v.len() - i,
    {
        if v[i] == a {
            return true;
        }
        i += 1;
    }
    false
}

fn collect_addresses(devs: &Vec<DeviceConfig>) -> (r: Vec<u8>)
    ensures
        r@ == addresses_of(devs@),
{
    let mut r: Vec<u8> = Vec::new();
    let mut i: usize = 0;
    while i < devs.len()
        invariant
            i <= devs.len(),
            r@ == addresses_of(devs@.take(i as int)),
        decreases devs.len() - i,
    {
        proof {
            assert(addresses_of(devs@.take(i + 1)) =~= addresses_of(devs@.take(i as int)).push(devs@[i as int].address));
        }
        r.push(devs[i].address);
        i += 1;
    }
    proof {
        assert(devs@.take(devs.len() as int) =~= devs@);
    }
    r
}

fn cli_device(a: u8) -> (d: DeviceConfig)
    ensures
        is_cli_device(d, a),
{
    let n = decimal_string(a as u64);
    let parameters = strings_from(&["MassFlowRate", "Temperature"]);
    proof {
        assert(views(parameters@) =~= seq!["MassFlowRate"@, "Temperature"@]);
    }
    DeviceConfig {
        uuid: generate_uuid(),
        address: a,
        device_type: owned("flowmeter"),
        name: concat("Device ", n.as_str()),
        location: owned("Unknown"),
        enabled: true,
        polling_interval: None,
        parameters,
        metadata: Metadata::new(),
    }
}

impl Config {
    /// Makes `addresses` the device list: the legacy address list becomes
    /// `addresses`, devices at other addresses are dropped, and a flowmeter is
    /// created for each listed address that no device has.
    pub fn apply_device_addresses(&mut self, addresses: Vec<u8>)
        ensures
            final(self).device_addresses@ == addresses@,
            devices_for_addresses(final(self).devices@, old(self).devices@, addresses@),
            *final(self) == (Config {
                devices: final(self).devices,
                device_addresses: final(self).device_addresses,
                ..*old(self)
            }),
    {
        let known = collect_addresses(&self.devices);
        let mut added_addrs: Vec<u8> = Vec::new();
        let mut added: Vec<DeviceConfig> = Vec::new();
        let mut i: usize = 0;
        while i < addresses.len()
            invariant
                i <= addresses.len(),
                known@ == addresses_of(self.devices@),
                added_addrs@ == new_addresses(known@, addresses@.take(i as int)),
                added.len() == added_addrs.len(),
                forall|j: int| 0 <= j < added.len() ==> #[trigger] is_cli_device(added@[j], added_addrs@[j]),
            decreases addresses.len() - i,
        {
            let a = addresses[i];
            proof {
                assert(addresses@.take(i + 1).drop_last() =~= addresses@.take(i as int));
                assert(addresses@.take(i + 1).last() == a);
            }
            if !contains_u8(&known, a) && !contains_u8(&added_addrs, a) {
                added_addrs.push(a);
                added.push(cli_device(a));
            }
            i += 1;
        }
        proof {
            assert(addresses@.take(addresses.len() as int) =~= addresses@);
        }
        let ghost f = |d: DeviceConfig| addresses@.contains(d.address);
        let mut kept: Vec<DeviceConfig> = Vec::new();
        let mut k: usize = 0;
        while k < self.devices.len()
            invariant
                k <= self.devices.len(),
                f == (|d: DeviceConfig| addresses@.contains(d.address)),
                kept.len() == self.devices@.take(k as int).filter(f).len(),
                forall|j: int|
                    0 <= j < kept.len() ==> #[trigger] kept@[j].same(self.devices@.take(k as int).filter(f)[j]),
            decreases self.devices.len() - k,
        {
            let d = &self.devices[k];
            proof {
                assert(self.devices@.take(k + 1) =~= self.devices@.take(k as int).push(*d));
                self.devices@.take(k as int).lemma_filter_push(*d, f);
            }
            if contains_u8(&addresses, d.address) {
                kept.push(d.clone());
            }
            k += 1;
        }
        proof {
            assert(self.devices@.take(self.devices.len() as int) =~= self.devices@);
        }
        let ghost nk = kept.len();
        let mut m: usize = 0;
        while m < added.len()
            invariant
                m <= added.len(),
                added.len() == added_addrs.len(),
                kept.len() == nk + m,
                forall|j: int| 0 <= j < nk ==> #[trigger] kept@[j].same(self.devices@.filter(f)[j]),
                forall|j: int| 0 <= j < m ==> #[trigger] kept@[nk + j].same(added@[j]),
                nk == self.devices@.filter(f).len(),
            decreases added.len() - m,
        {
            kept.push(added[m].clone());
            m += 1;
        }
        proof {
            assert forall|j: int| 0 <= j < added_addrs@.len() implies #[trigger] is_cli_device(
                kept@[nk + j],
                added_addrs@[j],
            ) by {
                assert(kept@[nk + j].same(added@[j]));
                assert(is_cli_device(added@[j], added_addrs@[j]));
            }
        }
        self.devices = kept;
        self.device_addresses = addresses;
    }
}


/// What reading the baud rate, the polling interval and, where given, the
/// address list gives: the three values, or the failure of the first that
/// cannot be read.
pub open spec fn arguments_result(baud: Seq<char>, interval: Seq<char>, devices: Option<Seq<char>>) -> Result<
    (u32, u64, Option<Seq<u8>>),
    IntErrorKind,
> {
    match parse_unsigned(baud, u32::MAX as nat) {
        None => Err(parse_error(baud, u32::MAX as nat)),
        Some(b) => match parse_unsigned(interval, u64::MAX as nat) {
            None => Err(parse_error(interval, u64::MAX as nat)),
            Some(i) => match devices {
                None => Ok((b as u32, i as u64, None)),
                Some(d) => match device_list_result(d) {
                    Err(k) => Err(k),
                    Ok(a) => Ok((b as u32, i as u64, Some(a))),
                },
            },
        },
    }
}

/// `new` is `old` with the port, baud rate and interval set and, where an
/// address list was given, its devices made those of the list.
pub open spec fn arguments_applied(
    new: Config,
    old: Config,
    port: Seq<char>,
    baud: u32,
    interval: u64,
    list: Option<Seq<u8>>,
) -> bool {
    &&& new.serial_port@ == port
    &&& new.baud_rate == baud
    &&& new.update_interval_seconds == interval
    &&& match list {
        None => new.devices == old.devices && new.device_addresses == old.device_addresses,
        Some(a) => new.device_addresses@ == a && devices_for_addresses(new.devices@, old.devices@, a),
    }
    &&& new == (Config {
        serial_port: new.serial_port,
        baud_rate: new.baud_rate,
        update_interval_seconds: new.update_interval_seconds,
        devices: new.devices,
        device_addresses: new.device_addresses,
        ..old
    })
}

impl Config {
    /// Applies the command-line arguments: the serial port, the baud rate and
    /// polling interval as text, and perhaps a comma-separated address list.
    /// Fails, leaving the configuration as it was, on the first value that
    /// cannot be read.
    pub fn apply_arguments(&mut self, port: String, baud: &str, interval: &str, devices: Option<&str>) -> (r: Result<
        (),
        IntErrorKind,
    >)
        ensures
            match arguments_result(baud@, interval@, match devices {
                Some(d) => Some(d@),
                None => None,
            }) {
                Err(k) => r == Err::<(), IntErrorKind>(k) && *final(self) == *old(self),
                Ok((b, i, l)) => r is Ok && arguments_applied(*final(self), *old(self), port@, b, i, l),
            },
    {
        let b = match parse_unsigned_checked(baud, u32::MAX as u64) {
            Ok(v) => v as u32,
            Err(k) => return Err(k),
        };
        let i = match parse_unsigned_checked(interval, u64::MAX) {
            Ok(v) => v,
            Err(k) => return Err(k),
        };
        let list = match devices {
            Some(d) => match parse_device_list(d) {
                Ok(a) => Some(a),
                Err(k) => return Err(k),
            },
            None => None,
        };
        self.serial_port = port;
        self.baud_rate = b;
        self.update_interval_seconds = i;
        match list {
            Some(a) => self.apply_device_addresses(a),
            None => {},
        }
        Ok(())
    }

    /// The default configuration with the command-line arguments applied, or
    /// the failure of the first value that cannot be read.
    pub fn from_arguments(port: String, baud: &str, interval: &str, devices: Option<&str>) -> (r: Result<
        Config,
        IntErrorKind,
    >)
        ensures
            match arguments_result(baud@, interval@, match devices {
                Some(d) => Some(d@),
                None => None,
            }) {
                Err(k) => r matches Err(e) && e == k,
                Ok((b, i, l)) => r matches Ok(c) && exists|d: Config, x: Seq<char>, y: Seq<char>, z: Seq<char>|
                    #[trigger] is_default_config(d, x, y, z) && is_random_uuid(x) && is_random_uuid(y)
                    && is_random_uuid(z) && arguments_applied(c, d, port@, b, i, l),
            },
    {
        let mut c = Config::default();
        let ghost d = c;
        let ghost (x, y, z) = (d.ipc_uuid@, d.devices@[0].uuid@, d.devices@[1].uuid@);
        match c.apply_arguments(port, baud, interval, devices) {
            Ok(()) => {
                proof {
                    assert(is_default_config(d, x, y, z));
                }
                Ok(c)
            },
            Err(k) => Err(k),
        }
    }
}


proof fn lemma_new_addresses(known: Seq<u8>, addrs: Seq<u8>)
    ensures
        forall|x: u8| new_addresses(known, addrs).contains(x) ==> addrs.contains(x),
        forall|a: u8| addrs.contains(a) ==> known.contains(a) || new_addresses(known, addrs).contains(a),
    decreases addrs.len(),
{
    if addrs.len() > 0 {
        let prev = addrs.drop_last();
        lemma_new_addresses(known, prev);
        let last = addrs.last();
        assert forall|x: u8| new_addresses(known, addrs).contains(x) implies addrs.contains(x) by {
            if prev.contains(x) {
                let j = choose|j: int| 0 <= j < prev.len() && prev[j] == x;
                assert(addrs[j] == x);
            } else {
                assert(addrs[addrs.len() - 1] == x);
            }
        }
        assert forall|a: u8| addrs.contains(a) implies known.contains(a) || new_addresses(known, addrs).contains(a) by {
            let j = choose|j: int| 0 <= j < addrs.len() && addrs[j] == a;
            if j < addrs.len() - 1 {
                assert(prev[j] == a);
                assert(prev.contains(a));
                if new_addresses(known, prev).contains(a) {
                    let k = choose|k: int| 0 <= k < new_addresses(known, prev).len() && new_addresses(known, prev)[k] == a;
                    if !(known.contains(last) || new_addresses(known, prev).contains(last)) {
                        assert(new_addresses(known, addrs)[k] == a);
                    }
                }
            } else if !(known.contains(last) || new_addresses(known, prev).contains(last)) {
                assert(new_addresses(known, addrs)[new_addresses(known, addrs).len() - 1] == a);
            }
        }
    }
}

/// Once an address list is applied, every listed address has a device and
/// every device has a listed address.
pub proof fn lemma_devices_match_addresses(new: Seq<DeviceConfig>, old: Seq<DeviceConfig>, addrs: Seq<u8>)
    requires
        devices_for_addresses(new, old, addrs),
    ensures
        forall|a: u8| addrs.contains(a) ==> addresses_of(new).contains(a),
        forall|i: int| 0 <= i < new.len() ==> addrs.contains(#[trigger] new[i].address),
{
    let f = |d: DeviceConfig| addrs.contains(d.address);
    let kept = old.filter(f);
    let added = new_addresses(addresses_of(old), addrs);
    lemma_new_addresses(addresses_of(old), addrs);
    assert forall|i: int| 0 <= i < new.len() implies addrs.contains(#[trigger] new[i].address) by {
        if i < kept.len() {
            assert(new[i].same(kept[i]));
            old.lemma_filter_pred(f, i);
        } else {
            let j = i - kept.len();
            assert(is_cli_device(new[kept.len() + j], added[j]));
            assert(added.contains(added[j]));
        }
    }
    assert forall|a: u8| addrs.contains(a) implies addresses_of(new).contains(a) by {
        if addresses_of(old).contains(a) {
            let j = choose|j: int| 0 <= j < addresses_of(old).len() && addresses_of(old)[j] == a;
            assert(old[j].address == a);
            old.lemma_filter_contains(f, j);
            let m = choose|m: int| 0 <= m < kept.len() && kept[m] == old[j];
            assert(new[m].same(kept[m]));
            assert(addresses_of(new)[m] == a);
        } else {
            let j = choose|j: int| 0 <= j < added.len() && added[j] == a;
            assert(is_cli_device(new[kept.len() + j], added[j]));
            assert(addresses_of(new)[kept.len() + j] == a);
        }
    }
}

} // verus!

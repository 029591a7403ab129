//! The collector's configuration: identification, serial link, devices,
//! outputs, GPS and telemetry settings, with lookups over the device list.

use vstd::prelude::*;

use super::metadata::{metadata_from_pairs, str_keys_distinct, Metadata};
use crate::text::{concat, decimal, decimal_string, owned, parse_bool, parse_bool_spec, parse_u16, parse_u8,
    parse_unsigned, split_char, split_spec, str_eq, is_digit, all_digits, chars_of};

verus! {

/// Whether `c` is a lowercase hexadecimal digit.
pub open spec fn is_lower_hex(c: char) -> bool {
    ('0' <= c && c <= '9') || ('a' <= c && c <= 'f')
}

/// Whether `s` has the hyphenated form of a UUID: 36 characters, hyphens at
/// positions 8, 13, 18 and 23, lowercase hexadecimal digits elsewhere.
pub open spec fn is_hyphenated_uuid(s: Seq<char>) -> bool {
    &&& s.len() == 36
    &&& forall|i: int|
        0 <= i < 36 ==> if i == 8 || i == 13 || i == 18 || i == 23 {
            s[i] == '-'
        } else {
            is_lower_hex(#[trigger] s[i])
        }
}

/// Whether `s` is the hyphenated form of a random (version 4) UUID: the
/// version digit is `4` and the variant digit is one of `8`, `9`, `a`, `b`.
pub open spec fn is_random_uuid(s: Seq<char>) -> bool {
    &&& is_hyphenated_uuid(s)
    &&& s[14] == '4'
    &&& (s[19] == '8' || s[19] == '9' || s[19] == 'a' || s[19] == 'b')
}

/// A new random (version 4) UUID in its hyphenated text form.
/// Trusted: `uuid::Uuid::new_v4`, which sets the version bits to 4 and the
/// variant bits to RFC 4122 over random bits, and the crate's `Display` for
/// `Uuid`, which writes the hyphenated lowercase form: 36 characters, hyphens
/// at positions 8, 13, 18 and 23, lowercase hexadecimal digits elsewhere. The
/// other digits are random, so nothing more is stated of them.
#[verifier::external_body]
pub(crate) fn generate_uuid() -> (s: String)
    ensures
        is_random_uuid(s@),
{
    uuid::Uuid::new_v4().to_string()
}

#[derive(Debug, Clone)]
pub struct Config {
    pub ipc_uuid: String,
    pub ipc_name: String,
    pub ipc_version: String,
    pub serial_port: String,
    pub baud_rate: u32,
    pub timeout_ms: u64,
    pub parity: ParityConfig,
    pub update_interval_seconds: u64,
    pub max_retries: u32,
    pub retry_delay_ms: u64,
    pub devices: Vec<DeviceConfig>,
    pub data_collection: DataCollectionConfig,
    pub output: OutputConfig,
    pub site_info: SiteInfo,
    pub device_addresses: Vec<u8>,
    pub api_server: ApiServerConfig,
    pub gps: GpsConfig,
    pub mtws: MtwsConfig,
}

#[derive(Debug)]
pub struct DeviceConfig {
    pub uuid: String,
    pub address: u8,
    pub device_type: String,
    pub name: String,
    pub location: String,
    pub enabled: bool,
    pub polling_interval: Option<u64>,
    pub parameters: Vec<String>,
    pub metadata: Metadata,
}

#[derive(Debug, Clone)]
pub struct DataCollectionConfig {
    pub batch_size: usize,
    pub buffer_size: usize,
    pub auto_save_interval: u64,
    pub include_raw_data: bool,
    pub include_timestamps: bool,
    pub include_metadata: bool,
}

#[derive(Debug, Clone)]
pub struct OutputConfig {
    pub default_format: String,
    pub file_output: Option<FileOutputConfig>,
    pub http_output: Option<HttpOutputConfig>,
    pub mqtt_output: Option<MqttOutputConfig>,
    pub database_output: Option<DatabaseOutputConfig>,
}

#[derive(Debug, Clone)]
pub struct FileOutputConfig {
    pub enabled: bool,
    pub path: String,
    pub rotate: bool,
    pub max_file_size_mb: u64,
    pub compression: bool,
}

#[derive(Debug, Clone)]
pub struct HttpOutputConfig {
    pub enabled: bool,
    pub endpoint: String,
    pub headers: Metadata,
    pub timeout_seconds: u64,
    pub retry_attempts: u32,
}

#[derive(Debug, Clone)]
pub struct MqttOutputConfig {
    pub enabled: bool,
    pub broker: String,
    pub topic_prefix: String,
    pub qos: u8,
    pub retain: bool,
    pub client_id: String,
}

#[derive(Debug, Clone)]
pub struct DatabaseOutputConfig {
    pub enabled: bool,
    pub sqlite_config: SqliteConfig,
    pub batch_size: usize,
    pub flush_interval_seconds: u64,
}

#[derive(Debug, Clone)]
pub struct SqliteConfig {
    pub database_path: String,
    pub max_connections: usize,
    pub connection_timeout_seconds: u64,
    pub enable_wal: bool,
    pub cache_size: i32,
    pub auto_vacuum: bool,
    pub batch_size: usize,
    pub busy_timeout_ms: u64,
    pub wal_mode: bool,
    pub sync_mode: String,
    pub cache_size_kb: i32,
}

#[derive(Debug, Clone)]
pub struct ApiServerConfig {
    pub enabled: bool,
    pub port: u16,
    pub host: String,
    pub cors_enabled: bool,
    pub cors_origins: Vec<String>,
}

#[derive(Debug, Clone)]
pub struct GpsConfig {
    pub enabled: bool,
    pub port: String,
    pub baud_rate: u32,
    pub auto_start: bool,
}

#[derive(Debug, Clone)]
pub struct MtwsConfig {
    pub enabled: bool,
    pub imei: String,
    pub base_endpoint_url: String,
    pub transmission_interval_seconds: u64,
    pub timeout_seconds: u64,
    pub retry_attempts: u32,
    pub retry_delay_seconds: u64,
    pub auto_start: bool,
}

#[derive(Debug, Clone)]
pub struct SiteInfo {
    pub site_id: String,
    pub site_name: String,
    pub location: String,
    pub timezone: String,
    pub operator: String,
    pub department: String,
    pub contact_email: String,
    pub metadata: Metadata,
}

#[derive(Debug, Clone, Copy, PartialEq, Eq)]
pub enum ParityConfig {
    /// No parity bit.
    NoParity,
    Even,
    Odd,
}

/// A register range description kept for older configurations.
#[derive(Debug, Clone)]
pub struct RegisterConfig {
    pub address: u16,
    pub count: u16,
    pub register_type: String,
    pub description: String,
}

impl DeviceConfig {
    /// Same contents: equal fields, and lists and metadata with equal entries.
    pub open spec fn same(self, o: DeviceConfig) -> bool {
        &&& self.uuid == o.uuid
        &&& self.address == o.address
        &&& self.device_type == o.device_type
        &&& self.name == o.name
        &&& self.location == o.location
        &&& self.enabled == o.enabled
        &&& self.polling_interval == o.polling_interval
        &&& self.parameters@ == o.parameters@
        &&& self.metadata.entries@ == o.metadata.entries@
    }
}

/// Element-wise same contents.
pub open spec fn same_devices(a: Seq<DeviceConfig>, b: Seq<DeviceConfig>) -> bool {
    a.len() == b.len() && forall|i: int| 0 <= i < a.len() ==> #[trigger] a[i].same(b[i])
}

/// A copy of a list of strings.
pub fn clone_strings(v: &Vec<String>) -> (r: Vec<String>)
    ensures
        r@ == v@,
{
    let mut r: Vec<String> = Vec::new();
    let mut i: usize = 0;
    while i < v.len()
        invariant
            i <= v.len(),
            r@ == v@.take(i as int),
        decreases v.len() - i,
    {
        r.push(v[i].clone());
        proof {
            assert(v@.take(i + 1) =~= v@.take(i as int).push(v@[i as int]));
        }
        i += 1;
    }
    proof {
        assert(v@.take(v.len() as int) =~= v@);
    }
    r
}

impl Clone for DeviceConfig {
    fn clone(&self) -> (r: Self)
        ensures
            r.same(*self),
    {
        DeviceConfig {
            uuid: self.uuid.clone(),
            address: self.address,
            device_type: self.device_type.clone(),
            name: self.name.clone(),
            location: self.location.clone(),
            enabled: self.enabled,
            polling_interval: self.polling_interval,
            parameters: clone_strings(&self.parameters),
            metadata: self.metadata.clone(),
        }
    }
}

impl Default for SqliteConfig {
    fn default() -> (r: Self)
        ensures
            r.database_path@ == "data/sensor_data.db"@,
            r.max_connections == 5,
            r.connection_timeout_seconds == 30,
            !r.enable_wal,
            r.cache_size == 2000,
            r.auto_vacuum,
            r.batch_size == 500,
            r.busy_timeout_ms == 30000,
            !r.wal_mode,
            r.sync_mode@ == "OFF"@,
            r.cache_size_kb == 2000,
    {
        SqliteConfig {
            database_path: owned("data/sensor_data.db"),
            max_connections: 5,
            connection_timeout_seconds: 30,
            enable_wal: false,
            cache_size: 2000,
            auto_vacuum: true,
            batch_size: 500,
            busy_timeout_ms: 30000,
            wal_mode: false,
            sync_mode: owned("OFF"),
            cache_size_kb: 2000,
        }
    }
}

impl Default for FileOutputConfig {
    fn default() -> (r: Self)
        ensures
            !r.enabled,
            r.path@ == "./data/sensor_data.json"@,
            r.rotate,
            r.max_file_size_mb == 100,
            !r.compression,
    {
        FileOutputConfig {
            enabled: false,
            path: owned("./data/sensor_data.json"),
            rotate: true,
            max_file_size_mb: 100,
            compression: false,
        }
    }
}

impl Default for DatabaseOutputConfig {
    fn default() -> (r: Self)
        ensures
            r.enabled,
            r.sqlite_config.database_path@ == "data/sensor_data.db"@,
            r.sqlite_config.max_connections == 5,
            r.sqlite_config.connection_timeout_seconds == 30,
            !r.sqlite_config.enable_wal,
            r.sqlite_config.cache_size == 2000,
            r.sqlite_config.auto_vacuum,
            r.sqlite_config.batch_size == 500,
            r.sqlite_config.busy_timeout_ms == 30000,
            !r.sqlite_config.wal_mode,
            r.sqlite_config.sync_mode@ == "OFF"@,
            r.sqlite_config.cache_size_kb == 2000,
            r.batch_size == 100,
            r.flush_interval_seconds == 60,
    {
        DatabaseOutputConfig {
            enabled: true,
            sqlite_config: SqliteConfig::default(),
            batch_size: 100,
            flush_interval_seconds: 60,
        }
    }
}

impl Default for ApiServerConfig {
    fn default() -> (r: Self)
        ensures
            !r.enabled,
            r.port == 3000,
            r.host@ == "0.0.0.0"@,
            r.cors_enabled,
            r.cors_origins@.len() == 1,
            r.cors_origins@[0]@ == "*"@,
    {
        let mut origins: Vec<String> = Vec::new();
        origins.push(owned("*"));
        ApiServerConfig {
            enabled: false,
            port: 3000,
            host: owned("0.0.0.0"),
            cors_enabled: true,
            cors_origins: origins,
        }
    }
}

impl Default for GpsConfig {
    fn default() -> (r: Self)
        ensures
            r.enabled,
            r.port@ == "/dev/ttyUSB2"@,
            r.baud_rate == 9600,
            r.auto_start,
    {
        GpsConfig { enabled: true, port: owned("/dev/ttyUSB2"), baud_rate: 9600, auto_start: true }
    }
}

impl Default for MtwsConfig {
    fn default() -> (r: Self)
        ensures
            r.enabled,
            r.imei@ == "123456789012345"@,
            r.base_endpoint_url@ == "http://mtws.masihplayground.my.id:80/SubmitForm"@,
            r.transmission_interval_seconds == 300,
            r.timeout_seconds == 30,
            r.retry_attempts == 3,
            r.retry_delay_seconds == 60,
            r.auto_start,
    {
        MtwsConfig {
            enabled: true,
            imei: owned("123456789012345"),
            base_endpoint_url: owned("http://mtws.masihplayground.my.id:80/SubmitForm"),
            transmission_interval_seconds: 300,
            timeout_seconds: 30,
            retry_attempts: 3,
            retry_delay_seconds: 60,
            auto_start: true,
        }
    }
}

/// The first device with address `address`.
pub open spec fn find_by_address(devs: Seq<DeviceConfig>, address: u8) -> Option<DeviceConfig>
    decreases devs.len(),
{
    if devs.len() == 0 {
        None
    } else if devs[0].address == address {
        Some(devs[0])
    } else {
        find_by_address(devs.drop_first(), address)
    }
}

/// The first device whose UUID is `uuid`.
pub open spec fn find_by_uuid(devs: Seq<DeviceConfig>, uuid: Seq<char>) -> Option<DeviceConfig>
    decreases devs.len(),
{
    if devs.len() == 0 {
        None
    } else if devs[0].uuid@ == uuid {
        Some(devs[0])
    } else {
        find_by_uuid(devs.drop_first(), uuid)
    }
}

/// The first device whose name is `name`.
pub open spec fn find_by_name(devs: Seq<DeviceConfig>, name: Seq<char>) -> Option<DeviceConfig>
    decreases devs.len(),
{
    if devs.len() == 0 {
        None
    } else if devs[0].name@ == name {
        Some(devs[0])
    } else {
        find_by_name(devs.drop_first(), name)
    }
}

/// `v` parsed as an unsigned integer with maximum `max`, or `default`.
pub open spec fn parsed_or(v: Option<Seq<char>>, max: nat, default: nat) -> nat {
    match v {
        Some(s) => match parse_unsigned(s, max) {
            Some(n) => n,
            None => default,
        },
        None => default,
    }
}

/// `v` parsed as a boolean, or `default`.
pub open spec fn bool_or(v: Option<Seq<char>>, default: bool) -> bool {
    match v {
        Some(s) => match parse_bool_spec(s) {
            Some(b) => b,
            None => default,
        },
        None => default,
    }
}

/// The threshold of RPM channel `ch`: its own key, else the shared key, else 500.
pub open spec fn rpm_threshold_for(meta: Metadata, ch: nat) -> u16 {
    match meta.spec_get("rpm_threshold_ch"@ + decimal(ch)) {
        Some(s) if parse_unsigned(s, 65535).is_some() => parse_unsigned(s, 65535).unwrap() as u16,
        _ => parsed_or(meta.spec_get("rpm_threshold"@), 65535, 500) as u16,
    }
}

/// Channel count and thresholds of the RPM device at `address`.
pub open spec fn rpm_channel_config(devs: Seq<DeviceConfig>, address: u8) -> (u8, Seq<u16>) {
    match find_by_address(devs, address) {
        Some(d) if d.device_type@ == "rpm"@ => {
            let n = parsed_or(d.metadata.spec_get("total_channels"@), 255, 2) as u8;
            (n, Seq::new(n as nat, |i: int| rpm_threshold_for(d.metadata, (i + 1) as nat)))
        },
        _ => (2u8, seq![500u16, 500u16]),
    }
}

/// Outlier detection and confirmation thresholds of the RPM device at `address`.
pub open spec fn rpm_outlier_settings(devs: Seq<DeviceConfig>, address: u8) -> (u16, u16) {
    match find_by_address(devs, address) {
        Some(d) if d.device_type@ == "rpm"@ => (
            parsed_or(d.metadata.spec_get("outlier_detection_threshold"@), 65535, 150) as u16,
            parsed_or(d.metadata.spec_get("outlier_confirmation_threshold"@), 65535, 15) as u16,
        ),
        _ => (150u16, 15u16),
    }
}

/// Whether channel auto-detection is on for the device at `address` (on unless it says otherwise).
pub open spec fn auto_detect_enabled(devs: Seq<DeviceConfig>, address: u8) -> bool {
    match find_by_address(devs, address) {
        Some(d) => bool_or(d.metadata.spec_get("auto_detect_channels"@), true),
        None => true,
    }
}

/// Channel types of an AIO device: its comma-separated list, else `n` times "rpm".
pub open spec fn aio_channel_types(meta: Metadata, n: u8) -> Seq<Seq<char>> {
    match meta.spec_get("channel_types"@) {
        Some(s) => split_spec(s, ','),
        None => Seq::new(n as nat, |i: int| "rpm"@),
    }
}

/// Analog channel count, digital input count and channel types of the AIO device at `address`.
pub open spec fn aio_channel_config(devs: Seq<DeviceConfig>, address: u8) -> (u8, u8, Seq<Seq<char>>) {
    match find_by_address(devs, address) {
        Some(d) if d.device_type@ == "aio"@ => {
            let n = parsed_or(d.metadata.spec_get("total_analog_channels"@), 255, 8) as u8;
            (n, parsed_or(d.metadata.spec_get("digital_inputs_count"@), 255, 16) as u8, aio_channel_types(d.metadata, n))
        },
        _ => (8u8, 16u8, Seq::new(8, |i: int| "rpm"@)),
    }
}

/// The default threshold of an AIO channel of type `t` (absent counts as "pulse").
pub open spec fn aio_default_threshold(t: Option<Seq<char>>) -> u16 {
    match t {
        Some(s) if s == "rpm"@ => 500u16,
        _ => 0u16,
    }
}

/// The thresholds of the AIO device at `address`.
pub open spec fn aio_channel_thresholds(devs: Seq<DeviceConfig>, address: u8) -> Seq<u16> {
    match find_by_address(devs, address) {
        Some(d) if d.device_type@ == "aio"@ => {
            let (n, _, types) = aio_channel_config(devs, address);
            Seq::new(n as nat, |i: int| {
                let t = if i < types.len() { Some(types[i]) } else { None };
                parsed_or(d.metadata.spec_get("channel_"@ + decimal((i + 1) as nat) + "_threshold"@), 65535,
                    aio_default_threshold(t) as nat) as u16
            })
        },
        _ => seq![500u16, 500u16, 0u16, 0u16, 500u16, 0u16, 0u16, 0u16],
    }
}

/// The first address that occurs twice, at its second occurrence.
pub open spec fn first_duplicate(addrs: Seq<u8>) -> Option<u8>
    decreases addrs.len(),
{
    if addrs.len() == 0 {
        None
    } else {
        match first_duplicate(addrs.drop_last()) {
            Some(a) => Some(a),
            None => if addrs.drop_last().contains(addrs.last()) { Some(addrs.last()) } else { None },
        }
    }
}

pub open spec fn is_flowmeter_enabled(d: DeviceConfig) -> bool {
    d.enabled && d.device_type@ == "flowmeter"@
}

pub open spec fn is_enabled(d: DeviceConfig) -> bool {
    d.enabled
}

pub open spec fn addresses_of(devs: Seq<DeviceConfig>) -> Seq<u8> {
    devs.map_values(|d: DeviceConfig| d.address)
}

/// What checking the telemetry settings gives.
pub open spec fn mtws_config_result(m: MtwsConfig) -> Result<(), Seq<char>> {
    if !m.enabled {
        Ok(())
    } else if !(m.imei@.len() == 15 && all_digits(m.imei@)) {
        Err("IMEI must be exactly 15 digits"@)
    } else if m.base_endpoint_url@.len() == 0 {
        Err("Base endpoint URL cannot be empty"@)
    } else if m.transmission_interval_seconds < 60 {
        Err("Transmission interval must be at least 60 seconds"@)
    } else {
        Ok(())
    }
}

proof fn lemma_first_duplicate_prefix(s: Seq<u8>, k: int)
    requires
        0 <= k <= s.len(),
        first_duplicate(s.take(k)) is Some,
    ensures
        first_duplicate(s) == first_duplicate(s.take(k)),
    decreases s.len() - k,
{
    if k < s.len() {
        assert(s.take(k + 1).drop_last() =~= s.take(k));
        lemma_first_duplicate_prefix(s, k + 1);
    } else {
        assert(s.take(k) =~= s);
    }
}

/// `v` parsed as `u8`, when present and valid.
fn meta_u8(meta: &Metadata, key: &str) -> (r: Option<u8>)
    ensures
        r == (match meta.spec_get(key@) {
            Some(s) => match parse_unsigned(s, 255) {
                Some(n) => Some(n as u8),
                None => None::<u8>,
            },
            None => None::<u8>,
        }),
{
    match meta.get(key) {
        Some(v) => parse_u8(v.as_str()),
        None => None,
    }
}

fn meta_u16(meta: &Metadata, key: &str) -> (r: Option<u16>)
    ensures
        r == (match meta.spec_get(key@) {
            Some(s) => match parse_unsigned(s, 65535) {
                Some(n) => Some(n as u16),
                None => None::<u16>,
            },
            None => None::<u16>,
        }),
{
    match meta.get(key) {
        Some(v) => parse_u16(v.as_str()),
        None => None,
    }
}

fn meta_bool(meta: &Metadata, key: &str) -> (r: Option<bool>)
    ensures
        r == (match meta.spec_get(key@) {
            Some(s) => parse_bool_spec(s),
            None => None::<bool>,
        }),
{
    match meta.get(key) {
        Some(v) => parse_bool(v.as_str()),
        None => None,
    }
}

impl Config {
    pub fn get_ipc_uuid(&self) -> (r: &str)
        ensures
            r@ == self.ipc_uuid@,
    {
        self.ipc_uuid.as_str()
    }

    pub fn get_ipc_name(&self) -> (r: &str)
        ensures
            r@ == self.ipc_name@,
    {
        self.ipc_name.as_str()
    }

    pub fn get_ipc_version(&self) -> (r: &str)
        ensures
            r@ == self.ipc_version@,
    {
        self.ipc_version.as_str()
    }

    pub fn set_ipc_name(&mut self, name: String)
        ensures
            *final(self) == (Config { ipc_name: name, ..*old(self) }),
    {
        self.ipc_name = name;
    }

    /// Replaces the IPC UUID with a new random one.
    pub fn regenerate_ipc_uuid(&mut self)
        ensures
            is_random_uuid(final(self).ipc_uuid@),
            *final(self) == (Config { ipc_uuid: final(self).ipc_uuid, ..*old(self) }),
    {
        self.ipc_uuid = generate_uuid();
    }

    /// The enabled devices, in order.
    pub fn get_enabled_devices(&self) -> (r: Vec<&DeviceConfig>)
        ensures
            r@.map_values(|d: &DeviceConfig| *d) == self.devices@.filter(|d: DeviceConfig| is_enabled(d)),
    {
        let mut r: Vec<&DeviceConfig> = Vec::new();
        let mut i: usize = 0;
        while i < self.devices.len()
            invariant
                i <= self.devices.len(),
                r@.map_values(|d: &DeviceConfig| *d) == self.devices@.take(i as int).filter(|d: DeviceConfig| is_enabled(d)),
            decreases self.devices.len() - i,
        {
            let d = &self.devices[i];
            proof {
                assert(self.devices@.take(i + 1) =~= self.devices@.take(i as int).push(*d));
                self.devices@.take(i as int).lemma_filter_push(*d, |d: DeviceConfig| is_enabled(d));
            }
            if d.enabled {
                let ghost old_r = r@;
                r.push(d);
                proof {
                    assert(r@.map_values(|d: &DeviceConfig| *d) =~= old_r.map_values(|d: &DeviceConfig| *d).push(*d));
                }
            }
            i += 1;
        }
        proof {
            assert(self.devices@.take(self.devices.len() as int) =~= self.devices@);
        }
        r
    }

    /// The first device with address `address`.
    pub fn get_device_by_address(&self, address: u8) -> (r: Option<&DeviceConfig>)
        ensures
            r matches Some(d) ==> find_by_address(self.devices@, address) == Some(*d),
            r is None ==> find_by_address(self.devices@, address) is None,
    {
        let mut i: usize = 0;
        proof {
            assert(self.devices@.skip(0) =~= self.devices@);
        }
        while i < self.devices.len()
            invariant
                i <= self.devices.len(),
                find_by_address(self.devices@, address) == find_by_address(self.devices@.skip(i as int), address),
            decreases self.devices.len() - i,
        {
            proof {
                assert(self.devices@.skip(i as int).drop_first() =~= self.devices@.skip(i + 1));
            }
            if self.devices[i].address == address {
                return Some(&self.devices[i]);
            }
            i += 1;
        }
        None
    }

    /// The first device whose UUID is `uuid`.
    pub fn get_device_by_uuid(&self, uuid: &str) -> (r: Option<&DeviceConfig>)
        ensures
            r matches Some(d) ==> find_by_uuid(self.devices@, uuid@) == Some(*d),
            r is None ==> find_by_uuid(self.devices@, uuid@) is None,
    {
        let mut i: usize = 0;
        proof {
            assert(self.devices@.skip(0) =~= self.devices@);
        }
        while i < self.devices.len()
            invariant
                i <= self.devices.len(),
                find_by_uuid(self.devices@, uuid@) == find_by_uuid(self.devices@.skip(i as int), uuid@),
            decreases self.devices.len() - i,
        {
            proof {
                assert(self.devices@.skip(i as int).drop_first() =~= self.devices@.skip(i + 1));
            }
            if str_eq(self.devices[i].uuid.as_str(), uuid) {
                return Some(&self.devices[i]);
            }
            i += 1;
        }
        None
    }

    /// The first device whose name is `name`.
    pub fn get_device_by_name(&self, name: &str) -> (r: Option<&DeviceConfig>)
        ensures
            r matches Some(d) ==> find_by_name(self.devices@, name@) == Some(*d),
            r is None ==> find_by_name(self.devices@, name@) is None,
    {
        let mut i: usize = 0;
        proof {
            assert(self.devices@.skip(0) =~= self.devices@);
        }
        while i < self.devices.len()
            invariant
                i <= self.devices.len(),
                find_by_name(self.devices@, name@) == find_by_name(self.devices@.skip(i as int), name@),
            decreases self.devices.len() - i,
        {
            proof {
                assert(self.devices@.skip(i as int).drop_first() =~= self.devices@.skip(i + 1));
            }
            if str_eq(self.devices[i].name.as_str(), name) {
                return Some(&self.devices[i]);
            }
            i += 1;
        }
        None
    }

    /// Addresses of the enabled devices, in order.
    pub fn device_addresses(&self) -> (r: Vec<u8>)
        ensures
            r@ == addresses_of(self.devices@.filter(|d: DeviceConfig| is_enabled(d))),
    {
        let enabled = self.get_enabled_devices();
        let mut r: Vec<u8> = Vec::new();
        let mut i: usize = 0;
        let ghost en = self.devices@.filter(|d: DeviceConfig| is_enabled(d));
        proof {
            assert(enabled@.len() == en.len());
        }
        while i < enabled.len()
            invariant
                i <= enabled.len(),
                enabled@.map_values(|d: &DeviceConfig| *d) == en,
                enabled@.len() == en.len(),
                r@ == addresses_of(en.take(i as int)),
            decreases enabled.len() - i,
        {
            proof {
                assert(en[i as int] == *enabled@[i as int]);
                assert(addresses_of(en.take(i + 1)) =~= addresses_of(en.take(i as int)).push(en[i as int].address));
            }
            r.push(enabled[i].address);
            i += 1;
        }
        proof {
            assert(en.take(en.len() as int) =~= en);
        }
        r
    }

    /// Sets the legacy address list to the addresses of all devices.
    pub fn sync_device_addresses(&mut self)
        ensures
            final(self).device_addresses@ == addresses_of(old(self).devices@),
            *final(self) == (Config { device_addresses: final(self).device_addresses, ..*old(self) }),
    {
        let mut r: Vec<u8> = Vec::new();
        let mut i: usize = 0;
        while i < self.devices.len()
            invariant
                i <= self.devices.len(),
                r@ == addresses_of(self.devices@.take(i as int)),
            decreases self.devices.len() - i,
        {
            proof {
                assert(addresses_of(self.devices@.take(i + 1)) =~= addresses_of(self.devices@.take(i as int)).push(self.devices@[i as int].address));
            }
            r.push(self.devices[i].address);
            i += 1;
        }
        proof {
            assert(self.devices@.take(self.devices.len() as int) =~= self.devices@);
        }
        self.device_addresses = r;
    }
}

impl Config {
    /// Channel count and per-channel RPM thresholds of the RPM device at `address`
    /// (two channels at 500 when there is no such RPM device).
    pub fn get_rpm_channel_config(&self, address: u8) -> (r: (u8, Vec<u16>))
        ensures
            r.0 == rpm_channel_config(self.devices@, address).0,
            r.1@ == rpm_channel_config(self.devices@, address).1,
    {
        if let Some(device) = self.get_device_by_address(address) {
            if str_eq(device.device_type.as_str(), "rpm") {
                let total_channels: u8 = match meta_u8(&device.metadata, "total_channels") {
                    Some(n) => n,
                    None => 2,
                };
                let mut thresholds: Vec<u16> = Vec::new();
                let mut i: u16 = 1;
                while i <= total_channels as u16
                    invariant
                        1 <= i,
                        i <= total_channels + 1,
                        thresholds@.len() == i - 1,
                        forall|j: int| 0 <= j < i - 1 ==> #[trigger] thresholds@[j] == rpm_threshold_for(device.metadata, (j + 1) as nat),
                    decreases total_channels + 1 - i,
                {
                    let idx = decimal_string(i as u64);
                    let key = concat("rpm_threshold_ch", idx.as_str());
                    let threshold: u16 = match meta_u16(&device.metadata, key.as_str()) {
                        Some(t) => t,
                        None => match meta_u16(&device.metadata, "rpm_threshold") {
                            Some(t) => t,
                            None => 500,
                        },
                    };
                    thresholds.push(threshold);
                    i += 1;
                }
                proof {
                    assert(thresholds@ =~= rpm_channel_config(self.devices@, address).1);
                }
                return (total_channels, thresholds);
            }
        }
        let mut v: Vec<u16> = Vec::new();
        v.push(500);
        v.push(500);
        proof {
            assert(v@ =~= seq![500u16, 500u16]);
        }
        (2, v)
    }

    /// Outlier detection and confirmation thresholds of the RPM device at `address`
    /// (150 and 15 by default).
    pub fn get_rpm_outlier_settings(&self, address: u8) -> (r: (u16, u16))
        ensures
            r == rpm_outlier_settings(self.devices@, address),
    {
        if let Some(device) = self.get_device_by_address(address) {
            if str_eq(device.device_type.as_str(), "rpm") {
                let detection = match meta_u16(&device.metadata, "outlier_detection_threshold") {
                    Some(t) => t,
                    None => 150,
                };
                let confirmation = match meta_u16(&device.metadata, "outlier_confirmation_threshold") {
                    Some(t) => t,
                    None => 15,
                };
                return (detection, confirmation);
            }
        }
        (150, 15)
    }

    /// Whether RPM channel auto-detection is on for `address`.
    pub fn is_rpm_auto_detect_enabled(&self, address: u8) -> (r: bool)
        ensures
            r == auto_detect_enabled(self.devices@, address),
    {
        if let Some(device) = self.get_device_by_address(address) {
            return match meta_bool(&device.metadata, "auto_detect_channels") {
                Some(b) => b,
                None => true,
            };
        }
        true
    }

    /// Analog channels, digital inputs and channel types of the AIO device at `address`.
    pub fn get_aio_channel_config(&self, address: u8) -> (r: (u8, u8, Vec<String>))
        ensures
            r.0 == aio_channel_config(self.devices@, address).0,
            r.1 == aio_channel_config(self.devices@, address).1,
            r.2@.map_values(|s: String| s@) == aio_channel_config(self.devices@, address).2,
    {
        if let Some(device) = self.get_device_by_address(address) {
            if str_eq(device.device_type.as_str(), "aio") {
                let analog: u8 = match meta_u8(&device.metadata, "total_analog_channels") {
                    Some(n) => n,
                    None => 8,
                };
                let digital: u8 = match meta_u8(&device.metadata, "digital_inputs_count") {
                    Some(n) => n,
                    None => 16,
                };
                let types = match device.metadata.get("channel_types") {
                    Some(s) => split_char(s.as_str(), ','),
                    None => repeated_rpm(analog as usize),
                };
                return (analog, digital, types);
            }
        }
        let types = repeated_rpm(8);
        (8, 16, types)
    }

    /// Per-channel thresholds of the AIO device at `address`.
    pub fn get_aio_channel_thresholds(&self, address: u8) -> (r: Vec<u16>)
        ensures
            r@ == aio_channel_thresholds(self.devices@, address),
    {
        if let Some(device) = self.get_device_by_address(address) {
            if str_eq(device.device_type.as_str(), "aio") {
                let (analog, _digital, types) = self.get_aio_channel_config(address);
                let ghost tv = types@.map_values(|s: String| s@);
                let mut thresholds: Vec<u16> = Vec::new();
                let mut i: u8 = 0;
                while i < analog
                    invariant
                        i <= analog,
                        analog == aio_channel_config(self.devices@, address).0,
                        tv == aio_channel_config(self.devices@, address).2,
                        tv == types@.map_values(|s: String| s@),
                        tv.len() == types@.len(),
                        thresholds@.len() == i,
                        forall|j: int| 0 <= j < i ==> #[trigger] thresholds@[j] == aio_channel_thresholds(self.devices@, address)[j],
                        find_by_address(self.devices@, address) == Some(*device),
                        device.device_type@ == "aio"@,
                    decreases analog - i,
                {
                    let idx = decimal_string((i as u64) + 1);
                    let k1 = concat("channel_", idx.as_str());
                    let key = concat(k1.as_str(), "_threshold");
                    let is_rpm = (i as usize) < types.len() && str_eq(types[i as usize].as_str(), "rpm");
                    proof {
                        let t = if (i as int) < tv.len() { Some(tv[i as int]) } else { None::<Seq<char>> };
                        if (i as int) < tv.len() {
                            assert(tv[i as int] == types@[i as int]@);
                        }
                        assert(is_rpm == (aio_default_threshold(t) == 500u16));
                    }
                    let default: u16 = if is_rpm { 500 } else { 0 };
                    let threshold: u16 = match meta_u16(&device.metadata, key.as_str()) {
                        Some(t) => t,
                        None => default,
                    };
                    thresholds.push(threshold);
                    i += 1;
                }
                proof {
                    assert(thresholds@ =~= aio_channel_thresholds(self.devices@, address));
                }
                return thresholds;
            }
        }
        let mut v: Vec<u16> = Vec::new();
        v.push(500);
        v.push(500);
        v.push(0);
        v.push(0);
        v.push(500);
        v.push(0);
        v.push(0);
        v.push(0);
        proof {
            assert(v@ =~= seq![500u16, 500u16, 0u16, 0u16, 500u16, 0u16, 0u16, 0u16]);
        }
        v
    }

    /// Whether AIO channel auto-detection is on for `address`.
    pub fn is_aio_auto_detect_enabled(&self, address: u8) -> (r: bool)
        ensures
            r == auto_detect_enabled(self.devices@, address),
    {
        if let Some(device) = self.get_device_by_address(address) {
            return match meta_bool(&device.metadata, "auto_detect_channels") {
                Some(b) => b,
                None => true,
            };
        }
        true
    }

    /// The baud rate recorded for the AIO device at `address` (9600 by default).
    pub fn get_aio_baud_rate(&self, address: u8) -> (r: u16)
        ensures
            r == (match find_by_address(self.devices@, address) {
                Some(d) => parsed_or(d.metadata.spec_get("baud_rate"@), 65535, 9600) as u16,
                None => 9600u16,
            }),
    {
        if let Some(device) = self.get_device_by_address(address) {
            return match meta_u16(&device.metadata, "baud_rate") {
                Some(b) => b,
                None => 9600,
            };
        }
        9600
    }

    /// Copies of the enabled flowmeter devices, in order.
    pub fn get_enabled_flowmeter_devices(&self) -> (r: Vec<DeviceConfig>)
        ensures
            same_devices(r@, self.devices@.filter(|d: DeviceConfig| is_flowmeter_enabled(d))),
    {
        let mut r: Vec<DeviceConfig> = Vec::new();
        let mut i: usize = 0;
        while i < self.devices.len()
            invariant
                i <= self.devices.len(),
                same_devices(r@, self.devices@.take(i as int).filter(|d: DeviceConfig| is_flowmeter_enabled(d))),
            decreases self.devices.len() - i,
        {
            let d = &self.devices[i];
            proof {
                assert(self.devices@.take(i + 1) =~= self.devices@.take(i as int).push(*d));
                self.devices@.take(i as int).lemma_filter_push(*d, |d: DeviceConfig| is_flowmeter_enabled(d));
            }
            if d.enabled && str_eq(d.device_type.as_str(), "flowmeter") {
                r.push(d.clone());
            }
            i += 1;
        }
        proof {
            assert(self.devices@.take(self.devices.len() as int) =~= self.devices@);
        }
        r
    }

    /// Checks that at least one flowmeter is enabled and that no two share an address.
    pub fn validate_flowmeter_config(&self) -> (r: Result<(), String>)
        ensures
            ({
                let fm = self.devices@.filter(|d: DeviceConfig| is_flowmeter_enabled(d));
                if fm.len() == 0 {
                    r is Err && r->Err_0@ == "No flowmeter devices configured"@
                } else {
                    match first_duplicate(addresses_of(fm)) {
                        Some(a) => r is Err && r->Err_0@ == "Duplicate flowmeter address: "@ + decimal(a as nat),
                        None => r is Ok,
                    }
                }
            }),
    {
        let devices = self.get_enabled_flowmeter_devices();
        let ghost fm = self.devices@.filter(|d: DeviceConfig| is_flowmeter_enabled(d));
        proof {
            assert forall|k: int| 0 <= k < devices@.len() implies addresses_of(devices@)[k] == addresses_of(fm)[k] by {
                assert(devices@[k].same(fm[k]));
            }
            assert(addresses_of(devices@) =~= addresses_of(fm));
        }
        if devices.len() == 0 {
            return Err(owned("No flowmeter devices configured"));
        }
        let mut seen: Vec<u8> = Vec::new();
        let mut i: usize = 0;
        let ghost addrs = addresses_of(devices@);
        while i < devices.len()
            invariant
                i <= devices.len(),
                addrs == addresses_of(devices@),
                addrs == addresses_of(fm),
                fm == self.devices@.filter(|d: DeviceConfig| is_flowmeter_enabled(d)),
                fm.len() > 0,
                seen@ == addrs.take(i as int),
                first_duplicate(addrs.take(i as int)) is None,
            decreases devices.len() - i,
        {
            let a = devices[i].address;
            proof {
                assert(addrs.take(i + 1).drop_last() =~= addrs.take(i as int));
                assert(addrs.take(i + 1).last() == a);
            }
            let mut j: usize = 0;
            let mut dup = false;
            while j < seen.len()
                invariant
                    j <= seen.len(),
                    dup == (exists|k: int| 0 <= k < j && seen@[k] == a),
                decreases seen.len() - j,
            {
                if seen[j] == a {
                    dup = true;
                }
                j += 1;
            }
            if dup {
                proof {
                    let k = choose|k: int| 0 <= k < j && seen@[k] == a;
                    assert(addrs.take(i as int)[k] == a);
                    assert(addrs.take(i as int).contains(a));
                    assert(first_duplicate(addrs.take(i + 1)) == Some(a));
                    lemma_first_duplicate_prefix(addrs, i + 1);
                }
                let d = decimal_string(a as u64);
                return Err(concat("Duplicate flowmeter address: ", d.as_str()));
            }
            proof {
                if addrs.take(i as int).contains(a) {
                    let k = choose|k: int| 0 <= k < i && addrs.take(i as int)[k] == a;
                    assert(seen@[k] == a);
                }
            }
            seen.push(a);
            proof {
                assert(seen@ =~= addrs.take(i + 1));
            }
            i += 1;
        }
        proof {
            assert(addrs.take(devices.len() as int) =~= addrs);
        }
        Ok(())
    }

    /// The telemetry endpoint: base URL, a slash, then the IMEI.
    pub fn get_mtws_endpoint_url(&self) -> (r: String)
        ensures
            r@ == self.mtws.base_endpoint_url@ + "/"@ + self.mtws.imei@,
    {
        let a = concat(self.mtws.base_endpoint_url.as_str(), "/");
        concat(a.as_str(), self.mtws.imei.as_str())
    }

    pub fn get_device_imei(&self) -> (r: &str)
        ensures
            r@ == self.mtws.imei@,
    {
        self.mtws.imei.as_str()
    }

    /// Checks the telemetry settings when telemetry is enabled.
    pub fn validate_mtws_config(&self) -> (r: Result<(), String>)
        ensures
            match mtws_config_result(self.mtws) {
                Ok(()) => r is Ok,
                Err(m) => r is Err && r->Err_0@ == m,
            },
    {
        if !self.mtws.enabled {
            return Ok(());
        }
        let chars = chars_of(self.mtws.imei.as_str());
        let mut all = true;
        let mut i: usize = 0;
        while i < chars.len()
            invariant
                i <= chars.len(),
                all == (forall|k: int| 0 <= k < i ==> #[trigger] is_digit(chars@[k])),
            decreases chars.len() - i,
        {
            proof {
                assert(is_digit(chars@[i as int]) == ('0' <= chars[i as int] && chars[i as int] <= '9'));
            }
            if !('0' <= chars[i] && chars[i] <= '9') {
                all = false;
            }
            i += 1;
        }
        if chars.len() != 15 || !all {
            return Err(owned("IMEI must be exactly 15 digits"));
        }
        if self.mtws.base_endpoint_url.as_str().unicode_len() == 0 {
            return Err(owned("Base endpoint URL cannot be empty"));
        }
        if self.mtws.transmission_interval_seconds < 60 {
            return Err(owned("Transmission interval must be at least 60 seconds"));
        }
        Ok(())
    }
}

/// `n` copies of "rpm".
fn repeated_rpm(n: usize) -> (v: Vec<String>)
    ensures
        v@.map_values(|s: String| s@) == Seq::new(n as nat, |i: int| "rpm"@),
{
    let mut v: Vec<String> = Vec::new();
    let mut i: usize = 0;
    while i < n
        invariant
            i <= n,
            v@.map_values(|s: String| s@) == Seq::new(i as nat, |k: int| "rpm"@),
        decreases n - i,
    {
        let ghost old_v = v@;
        let item = owned("rpm");
        v.push(item);
        proof {
            assert(v@ == old_v.push(item));
            assert(v@.map_values(|s: String| s@) =~= old_v.map_values(|s: String| s@).push(item@));
            assert(v@.map_values(|s: String| s@) =~= Seq::new((i + 1) as nat, |k: int| "rpm"@));
        }
        i += 1;
    }
    v
}

/// Views of a list of strings.
pub open spec fn views(v: Seq<String>) -> Seq<Seq<char>> {
    v.map_values(|s: String| s@)
}

/// Views of a list of key/value pairs.
pub open spec fn pair_views(v: Seq<(String, String)>) -> Seq<(Seq<char>, Seq<char>)> {
    v.map_values(|p: (String, String)| (p.0@, p.1@))
}

/// Owned copies of `lits`, in order.
pub fn strings_from(lits: &[&str]) -> (r: Vec<String>)
    ensures
        r@.len() == lits@.len(),
        forall|i: int| 0 <= i < lits@.len() ==> #[trigger] r@[i]@ == lits@[i]@,
{
    let mut r: Vec<String> = Vec::new();
    let mut i: usize = 0;
    while i < lits.len()
        invariant
            i <= lits.len(),
            r@.len() == i,
            forall|j: int| 0 <= j < i ==> #[trigger] r@[j]@ == lits@[j]@,
        decreases lits.len() - i,
    {
        r.push(owned(lits[i]));
        i += 1;
    }
    r
}

/// The parameters a new device of type `t` reports by default.
pub open spec fn default_parameters(t: Seq<char>) -> Seq<Seq<char>> {
    if t == "flowmeter"@ {
        seq!["MassFlowRate"@, "Temperature"@, "DensityFlow"@, "VolumeTotal"@]
    } else if t == "rpm"@ {
        seq!["RPM"@, "EngineDuration"@, "IsRunning"@]
    } else if t == "gps"@ {
        seq!["Latitude"@, "Longitude"@, "Speed"@, "Course"@]
    } else if t == "aio"@ {
        seq!["BaudRate"@, "ChannelCount"@, "AIN1"@, "AIN2"@, "AIN3"@, "AIN4"@, "AIN5"@, "AIN6"@, "AIN7"@,
            "AIN8"@, "DIN1"@, "DIN2"@, "DIN3"@, "DIN4"@, "DIN5"@, "DIN6"@, "DIN7"@, "DIN8"@, "DIN9"@,
            "DIN10"@, "DIN11"@, "DIN12"@, "DIN13"@, "DIN14"@, "DIN15"@, "DIN16"@]
    } else {
        seq!["Status"@]
    }
}

/// The parameters a new device of type `device_type` reports by default.
pub fn get_default_parameters_for_type(device_type: &str) -> (r: Vec<String>)
    ensures
        views(r@) == default_parameters(device_type@),
{
    let r = if str_eq(device_type, "flowmeter") {
        strings_from(&["MassFlowRate", "Temperature", "DensityFlow", "VolumeTotal"])
    } else if str_eq(device_type, "rpm") {
        strings_from(&["RPM", "EngineDuration", "IsRunning"])
    } else if str_eq(device_type, "gps") {
        strings_from(&["Latitude", "Longitude", "Speed", "Course"])
    } else if str_eq(device_type, "aio") {
        strings_from(&["BaudRate", "ChannelCount", "AIN1", "AIN2", "AIN3", "AIN4", "AIN5", "AIN6", "AIN7",
            "AIN8", "DIN1", "DIN2", "DIN3", "DIN4", "DIN5", "DIN6", "DIN7", "DIN8", "DIN9",
            "DIN10", "DIN11", "DIN12", "DIN13", "DIN14", "DIN15", "DIN16"])
    } else {
        strings_from(&["Status"])
    };
    proof {
        assert(views(r@) =~= default_parameters(device_type@));
    }
    r
}

/// Channel types of the default eight-channel AIO layout.
pub open spec fn aio_default_types() -> Seq<Seq<char>> {
    seq!["rpm"@, "rpm"@, "pulse"@, "frequency"@, "rpm"@, "pulse"@, "frequency"@, "pulse"@]
}

/// Thresholds of the default eight-channel AIO layout.
pub open spec fn aio_default_thresholds() -> Seq<nat> {
    seq![500nat, 500, 0, 0, 500, 0, 0, 0]
}

/// The per-channel entries of the default AIO layout: type, then threshold, per channel.
pub open spec fn aio_channel_entries() -> Seq<(Seq<char>, Seq<char>)> {
    Seq::new(16, |j: int| if j % 2 == 0 {
        ("channel_"@ + decimal((j / 2 + 1) as nat) + "_type"@, aio_default_types()[j / 2])
    } else {
        ("channel_"@ + decimal((j / 2 + 1) as nat) + "_threshold"@, decimal(aio_default_thresholds()[j / 2]))
    })
}

/// The metadata a new device of type `t` starts with.
pub open spec fn default_metadata(t: Seq<char>) -> Seq<(Seq<char>, Seq<char>)> {
    if t == "rpm"@ {
        seq![("total_channels"@, "2"@), ("rpm_threshold"@, "500"@), ("outlier_detection_threshold"@, "150"@),
            ("outlier_confirmation_threshold"@, "15"@), ("engine_types"@, "main,aux"@), ("auto_detect_channels"@, "true"@)]
    } else if t == "flowmeter"@ {
        seq![("flow_threshold"@, "0.1"@), ("calibration_factor"@, "1.0"@), ("density_correction"@, "true"@)]
    } else if t == "gps"@ {
        seq![("update_rate"@, "1"@), ("precision"@, "high"@), ("altitude_enabled"@, "true"@)]
    } else if t == "aio"@ {
        seq![("total_analog_channels"@, "8"@), ("digital_inputs_count"@, "16"@),
            ("channel_types"@, "rpm,rpm,pulse,frequency,rpm,pulse,frequency,pulse"@),
            ("rpm_thresholds"@, "500,500,0,0,500,0,0,0"@), ("auto_detect_channels"@, "true"@), ("baud_rate"@, "9600"@)]
            + aio_channel_entries()
    } else {
        Seq::empty()
    }
}

/// Metadata from literal pairs, viewed.
proof fn lemma_pairs_view(m: Metadata, pairs: Seq<(&str, &str)>)
    requires
        m.entries@.len() == pairs.len(),
        forall|i: int| #![trigger m.entries@[i]] 0 <= i < pairs.len() ==> m.entries@[i].0@ == pairs[i].0@
            && m.entries@[i].1@ == pairs[i].1@,
    ensures
        pair_views(m.entries@) == pairs.map_values(|p: (&str, &str)| (p.0@, p.1@)),
{
    assert(pair_views(m.entries@) =~= pairs.map_values(|p: (&str, &str)| (p.0@, p.1@)));
}

/// Default metadata for a new device of type `device_type`.
fn default_metadata_for(device_type: &str) -> (m: Metadata)
    ensures
        pair_views(m.entries@) == default_metadata(device_type@),
{
    if str_eq(device_type, "rpm") {
        let pairs: [(&str, &str); 6] = [("total_channels", "2"), ("rpm_threshold", "500"),
            ("outlier_detection_threshold", "150"), ("outlier_confirmation_threshold", "15"),
            ("engine_types", "main,aux"), ("auto_detect_channels", "true")];
        proof {
            reveal_strlit("total_channels");
            reveal_strlit("rpm_threshold");
            reveal_strlit("outlier_detection_threshold");
            reveal_strlit("outlier_confirmation_threshold");
            reveal_strlit("engine_types");
            reveal_strlit("auto_detect_channels");
            assert(pairs@[0].0@.len() == 14);
            assert(pairs@[1].0@.len() == 13);
            assert(pairs@[2].0@.len() == 27);
            assert(pairs@[3].0@.len() == 30);
            assert(pairs@[4].0@.len() == 12);
            assert(pairs@[5].0@.len() == 20);
            assert(str_keys_distinct(pairs@));
        }
        let m = metadata_from_pairs(&pairs);
        proof {
            lemma_pairs_view(m, pairs@);
            assert(pair_views(m.entries@) =~= default_metadata(device_type@));
        }
        m
    } else if str_eq(device_type, "flowmeter") {
        let pairs: [(&str, &str); 3] = [("flow_threshold", "0.1"), ("calibration_factor", "1.0"),
            ("density_correction", "true")];
        proof {
            reveal_strlit("flow_threshold");
            reveal_strlit("calibration_factor");
            reveal_strlit("density_correction");
            assert(pairs@[0].0@.len() == 14);
            assert(pairs@[1].0@.len() == 18);
            assert(pairs@[2].0@.len() == 18);
            assert(pairs@[1].0@[0] != pairs@[2].0@[0]);
            assert(str_keys_distinct(pairs@));
        }
        let m = metadata_from_pairs(&pairs);
        proof {
            lemma_pairs_view(m, pairs@);
            assert(pair_views(m.entries@) =~= default_metadata(device_type@));
        }
        m
    } else if str_eq(device_type, "gps") {
        let pairs: [(&str, &str); 3] = [("update_rate", "1"), ("precision", "high"), ("altitude_enabled", "true")];
        proof {
            reveal_strlit("update_rate");
            reveal_strlit("precision");
            reveal_strlit("altitude_enabled");
            assert(pairs@[0].0@.len() == 11);
            assert(pairs@[1].0@.len() == 9);
            assert(pairs@[2].0@.len() == 16);
            assert(str_keys_distinct(pairs@));
        }
        let m = metadata_from_pairs(&pairs);
        proof {
            lemma_pairs_view(m, pairs@);
            assert(pair_views(m.entries@) =~= default_metadata(device_type@));
        }
        m
    } else if str_eq(device_type, "aio") {
        let pairs: [(&str, &str); 6] = [("total_analog_channels", "8"), ("digital_inputs_count", "16"),
            ("channel_types", "rpm,rpm,pulse,frequency,rpm,pulse,frequency,pulse"),
            ("rpm_thresholds", "500,500,0,0,500,0,0,0"), ("auto_detect_channels", "true"), ("baud_rate", "9600")];
        proof {
            reveal_strlit("total_analog_channels");
            reveal_strlit("digital_inputs_count");
            reveal_strlit("channel_types");
            reveal_strlit("rpm_thresholds");
            reveal_strlit("auto_detect_channels");
            reveal_strlit("baud_rate");
            assert(pairs@[0].0@.len() == 21);
            assert(pairs@[1].0@.len() == 20);
            assert(pairs@[2].0@.len() == 13);
            assert(pairs@[3].0@.len() == 14);
            assert(pairs@[4].0@.len() == 20);
            assert(pairs@[5].0@.len() == 9);
            assert(pairs@[1].0@[0] != pairs@[4].0@[0]);
            assert(str_keys_distinct(pairs@));
        }
        let mut m = metadata_from_pairs(&pairs);
        proof {
            lemma_pairs_view(m, pairs@);
        }
        let channel_types: [&str; 8] = ["rpm", "rpm", "pulse", "frequency", "rpm", "pulse", "frequency", "pulse"];
        let thresholds: [u64; 8] = [500, 500, 0, 0, 500, 0, 0, 0];
        let ghost prefix = pair_views(m.entries@);
        let mut i: usize = 0;
        while i < 8
            invariant
                i <= 8,
                prefix.len() == 6,
                channel_types@ == seq!["rpm", "rpm", "pulse", "frequency", "rpm", "pulse", "frequency", "pulse"],
                thresholds@ == seq![500u64, 500, 0, 0, 500, 0, 0, 0],
                pair_views(m.entries@) == prefix + aio_channel_entries().take(2 * i),
            decreases 8 - i,
        {
            let n = decimal_string((i as u64) + 1);
            let k1 = concat("channel_", n.as_str());
            let type_key = concat(k1.as_str(), "_type");
            let threshold_key = concat(k1.as_str(), "_threshold");
            let threshold = decimal_string(thresholds[i]);
            let ghost before = m.entries@;
            m.entries.push((type_key, owned(channel_types[i])));
            m.entries.push((threshold_key, threshold));
            proof {
                reveal_strlit("rpm");
                reveal_strlit("pulse");
                reveal_strlit("frequency");
                assert(channel_types@[i as int]@ == aio_default_types()[i as int]);
                assert(thresholds@[i as int] as nat == aio_default_thresholds()[i as int]);
                assert(aio_channel_entries().take(2 * i + 2) =~= aio_channel_entries().take(2 * i)
                    .push(aio_channel_entries()[2 * i]).push(aio_channel_entries()[2 * i + 1]));
                assert(pair_views(m.entries@) =~= pair_views(before).push(aio_channel_entries()[2 * i])
                    .push(aio_channel_entries()[2 * i + 1]));
            }
            i += 1;
        }
        proof {
            assert(aio_channel_entries().take(16) =~= aio_channel_entries());
            assert(pair_views(m.entries@) =~= default_metadata(device_type@));
        }
        m
    } else {
        let m = Metadata::new();
        proof {
            assert(pair_views(m.entries@) =~= default_metadata(device_type@));
        }
        m
    }
}

/// A new enabled device with the given UUID and the defaults of its type.
pub fn device_config_for(uuid: String, address: u8, device_type: String, name: String, location: String) -> (d: DeviceConfig)
    ensures
        d.uuid == uuid,
        d.address == address,
        d.device_type == device_type,
        d.name == name,
        d.location == location,
        d.enabled,
        d.polling_interval is None,
        views(d.parameters@) == default_parameters(device_type@),
        pair_views(d.metadata.entries@) == default_metadata(device_type@),
{
    let metadata = default_metadata_for(device_type.as_str());
    let parameters = get_default_parameters_for_type(device_type.as_str());
    DeviceConfig {
        uuid,
        address,
        device_type,
        name,
        location,
        enabled: true,
        polling_interval: None,
        parameters,
        metadata,
    }
}

impl Config {
    /// A new enabled device with a fresh UUID and the defaults of its type.
    pub fn create_new_device(&self, address: u8, device_id: String, device_type: String, name: String, location: String) -> (d: DeviceConfig)
        ensures
            d.uuid@.len() == 36,
            d.address == address,
            d.device_type == device_type,
            d.name == name,
            d.location == location,
            d.enabled,
            d.polling_interval is None,
            views(d.parameters@) == default_parameters(device_type@),
            pair_views(d.metadata.entries@) == default_metadata(device_type@),
    {
        let uuid = generate_uuid();
        device_config_for(uuid, address, device_type, name, location)
    }
}

/// The first of the two flowmeters a default configuration lists.
pub open spec fn default_inlet_metadata() -> Seq<(Seq<char>, Seq<char>)> {
    seq![("calibration_date"@, "2024-01-15"@), ("serial_number"@, "TT_SB001-2024"@),
        ("manufacturer"@, "Sealand"@), ("model"@, "Coriolosis"@)]
}

/// The second of the two flowmeters a default configuration lists.
pub open spec fn default_outlet_metadata() -> Seq<(Seq<char>, Seq<char>)> {
    seq![("calibration_date"@, "2024-02-10"@), ("serial_number"@, "TT_SB002-2024"@),
        ("manufacturer"@, "Sealand"@), ("model"@, "Coriolosis"@)]
}

/// Whether `c` holds the default settings, with the given identifiers.
/// The default SQLite settings.
pub open spec fn is_default_sqlite(q: SqliteConfig) -> bool {
    &&& q.database_path@ == "data/sensor_data.db"@
    &&& q.max_connections == 5
    &&& q.connection_timeout_seconds == 30
    &&& !q.enable_wal
    &&& q.cache_size == 2000
    &&& q.auto_vacuum
    &&& q.batch_size == 500
    &&& q.busy_timeout_ms == 30000
    &&& !q.wal_mode
    &&& q.sync_mode@ == "OFF"@
    &&& q.cache_size_kb == 2000
}

pub open spec fn is_default_config(c: Config, ipc_uuid: Seq<char>, inlet_uuid: Seq<char>, outlet_uuid: Seq<char>) -> bool {
    &&& c.ipc_uuid@ == ipc_uuid
    &&& c.ipc_name@ == "Industrial Data Collector"@
    &&& c.ipc_version@ == "1.0.0"@
    &&& c.serial_port@ == "/dev/ttyS0"@
    &&& c.baud_rate == 9600
    &&& c.timeout_ms == 1000
    &&& c.parity == ParityConfig::NoParity
    &&& c.update_interval_seconds == 10
    &&& c.max_retries == 3
    &&& c.retry_delay_ms == 500
    &&& c.devices@.len() == 2
    &&& c.devices@[0].uuid@ == inlet_uuid
    &&& c.devices@[0].address == 2
    &&& c.devices@[0].device_type@ == "flowmeter"@
    &&& c.devices@[0].name@ == "Inlet Flowmeter"@
    &&& c.devices@[0].location@ == "Building A - Line 1"@
    &&& c.devices@[0].enabled
    &&& c.devices@[0].polling_interval is None
    &&& views(c.devices@[0].parameters@) == seq!["MassFlowRate"@, "Temperature"@, "DensityFlow"@, "VolumeFlowRate"@]
    &&& pair_views(c.devices@[0].metadata.entries@) == default_inlet_metadata()
    &&& c.devices@[1].uuid@ == outlet_uuid
    &&& c.devices@[1].address == 3
    &&& c.devices@[1].device_type@ == "flowmeter"@
    &&& c.devices@[1].name@ == "Outlet Flowmeter"@
    &&& c.devices@[1].location@ == "Building A - Line 2"@
    &&& c.devices@[1].enabled
    &&& c.devices@[1].polling_interval is None
    &&& views(c.devices@[1].parameters@) == seq!["MassFlowRate"@, "Temperature"@, "DensityFlow"@]
    &&& pair_views(c.devices@[1].metadata.entries@) == default_outlet_metadata()
    &&& c.data_collection.batch_size == 10
    &&& c.data_collection.buffer_size == 100
    &&& c.data_collection.auto_save_interval == 300
    &&& !c.data_collection.include_raw_data
    &&& c.data_collection.include_timestamps
    &&& c.data_collection.include_metadata
    &&& c.output.default_format@ == "json"@
    &&& c.output.file_output matches Some(f) && !f.enabled && f.path@ == "./data/sensor_data.json"@
        && f.rotate && f.max_file_size_mb == 100 && !f.compression
    &&& c.output.http_output is None
    &&& c.output.mqtt_output is None
    &&& c.output.database_output matches Some(db) && db.enabled && db.batch_size == 100
        && db.flush_interval_seconds == 60 && is_default_sqlite(db.sqlite_config)
    &&& c.site_info.site_id@ == "SITE_001"@
    &&& c.site_info.site_name@ == "Industrial Plant A"@
    &&& c.site_info.location@ == "Factory District, Industrial Zone"@
    &&& c.site_info.timezone@ == "UTC+07:00"@
    &&& c.site_info.operator@ == "Plant Operations Team"@
    &&& c.site_info.department@ == "Production"@
    &&& c.site_info.contact_email@ == "operations@plant.com"@
    &&& pair_views(c.site_info.metadata.entries@) == seq![("region"@, "Asia Pacific"@), ("facility_code"@, "FAC_001"@)]
    &&& c.device_addresses@ == seq![2u8, 3u8]
    &&& !c.api_server.enabled && c.api_server.port == 3000 && c.api_server.host@ == "0.0.0.0"@
    &&& c.api_server.cors_enabled && c.api_server.cors_origins@.len() == 1 && c.api_server.cors_origins@[0]@ == "*"@
    &&& c.gps.enabled && c.gps.port@ == "/dev/ttyUSB2"@ && c.gps.baud_rate == 9600 && c.gps.auto_start
    &&& c.mtws.enabled && c.mtws.imei@ == "123456789012345"@ && c.mtws.transmission_interval_seconds == 300
    &&& c.mtws.base_endpoint_url@ == "http://mtws.masihplayground.my.id:80/SubmitForm"@
    &&& c.mtws.timeout_seconds == 30 && c.mtws.retry_attempts == 3 && c.mtws.retry_delay_seconds == 60
    &&& c.mtws.auto_start
}

impl Config {
    /// The default settings, with the given identifiers for the IPC and its two flowmeters.
    pub fn default_with_ids(ipc_uuid: String, inlet_uuid: String, outlet_uuid: String) -> (c: Config)
        ensures
            is_default_config(c, ipc_uuid@, inlet_uuid@, outlet_uuid@),
    {
        let inlet_pairs: [(&str, &str); 4] = [("calibration_date", "2024-01-15"), ("serial_number", "TT_SB001-2024"),
            ("manufacturer", "Sealand"), ("model", "Coriolosis")];
        proof {
            reveal_strlit("calibration_date");
            reveal_strlit("serial_number");
            reveal_strlit("manufacturer");
            reveal_strlit("model");
            assert(inlet_pairs@[0].0@.len() == 16);
            assert(inlet_pairs@[1].0@.len() == 13);
            assert(inlet_pairs@[2].0@.len() == 12);
            assert(inlet_pairs@[3].0@.len() == 5);
            assert(str_keys_distinct(inlet_pairs@));
        }
        let inlet_meta = metadata_from_pairs(&inlet_pairs);
        let outlet_pairs: [(&str, &str); 4] = [("calibration_date", "2024-02-10"), ("serial_number", "TT_SB002-2024"),
            ("manufacturer", "Sealand"), ("model", "Coriolosis")];
        proof {
            reveal_strlit("calibration_date");
            reveal_strlit("serial_number");
            reveal_strlit("manufacturer");
            reveal_strlit("model");
            assert(outlet_pairs@[0].0@.len() == 16);
            assert(outlet_pairs@[1].0@.len() == 13);
            assert(outlet_pairs@[2].0@.len() == 12);
            assert(outlet_pairs@[3].0@.len() == 5);
            assert(str_keys_distinct(outlet_pairs@));
        }
        let outlet_meta = metadata_from_pairs(&outlet_pairs);
        let site_pairs: [(&str, &str); 2] = [("region", "Asia Pacific"), ("facility_code", "FAC_001")];
        proof {
            reveal_strlit("region");
            reveal_strlit("facility_code");
            assert(site_pairs@[0].0@.len() == 6);
            assert(site_pairs@[1].0@.len() == 13);
            assert(str_keys_distinct(site_pairs@));
        }
        let site_meta = metadata_from_pairs(&site_pairs);
        proof {
            lemma_pairs_view(inlet_meta, inlet_pairs@);
            lemma_pairs_view(outlet_meta, outlet_pairs@);
            lemma_pairs_view(site_meta, site_pairs@);
            assert(pair_views(inlet_meta.entries@) =~= default_inlet_metadata());
            assert(pair_views(outlet_meta.entries@) =~= default_outlet_metadata());
            assert(pair_views(site_meta.entries@) =~= seq![("region"@, "Asia Pacific"@), ("facility_code"@, "FAC_001"@)]);
        }
        let inlet_params = strings_from(&["MassFlowRate", "Temperature", "DensityFlow", "VolumeFlowRate"]);
        let outlet_params = strings_from(&["MassFlowRate", "Temperature", "DensityFlow"]);
        proof {
            assert(views(inlet_params@) =~= seq!["MassFlowRate"@, "Temperature"@, "DensityFlow"@, "VolumeFlowRate"@]);
            assert(views(outlet_params@) =~= seq!["MassFlowRate"@, "Temperature"@, "DensityFlow"@]);
        }
        let inlet = DeviceConfig {
            uuid: inlet_uuid,
            address: 2,
            device_type: owned("flowmeter"),
            name: owned("Inlet Flowmeter"),
            location: owned("Building A - Line 1"),
            enabled: true,
            polling_interval: None,
            parameters: inlet_params,
            metadata: inlet_meta,
        };
        let outlet = DeviceConfig {
            uuid: outlet_uuid,
            address: 3,
            device_type: owned("flowmeter"),
            name: owned("Outlet Flowmeter"),
            location: owned("Building A - Line 2"),
            enabled: true,
            polling_interval: None,
            parameters: outlet_params,
            metadata: outlet_meta,
        };
        let mut devices: Vec<DeviceConfig> = Vec::new();
        devices.push(inlet);
        devices.push(outlet);
        let mut device_addresses: Vec<u8> = Vec::new();
        device_addresses.push(2);
        device_addresses.push(3);
        proof {
            assert(device_addresses@ =~= seq![2u8, 3u8]);
        }
        Config {
            ipc_uuid,
            ipc_name: owned("Industrial Data Collector"),
            ipc_version: owned(crate::VERSION),
            serial_port: owned("/dev/ttyS0"),
            baud_rate: 9600,
            timeout_ms: 1000,
            parity: ParityConfig::NoParity,
            update_interval_seconds: 10,
            max_retries: 3,
            retry_delay_ms: 500,
            devices,
            data_collection: DataCollectionConfig {
                batch_size: 10,
                buffer_size: 100,
                auto_save_interval: 300,
                include_raw_data: false,
                include_timestamps: true,
                include_metadata: true,
            },
            output: OutputConfig {
                default_format: owned("json"),
                file_output: Some(FileOutputConfig::default()),
                http_output: None,
                mqtt_output: None,
                database_output: Some(DatabaseOutputConfig::default()),
            },
            site_info: SiteInfo {
                site_id: owned("SITE_001"),
                site_name: owned("Industrial Plant A"),
                location: owned("Factory District, Industrial Zone"),
                timezone: owned("UTC+07:00"),
                operator: owned("Plant Operations Team"),
                department: owned("Production"),
                contact_email: owned("operations@plant.com"),
                metadata: site_meta,
            },
            device_addresses,
            api_server: ApiServerConfig::default(),
            gps: GpsConfig::default(),
            mtws: MtwsConfig::default(),
        }
    }
}

impl Default for Config {
    fn default() -> (c: Self)
        ensures
            is_default_config(c, c.ipc_uuid@, c.devices@[0].uuid@, c.devices@[1].uuid@),
            is_random_uuid(c.ipc_uuid@),
            is_random_uuid(c.devices@[0].uuid@),
            is_random_uuid(c.devices@[1].uuid@),
    {
        let ipc_uuid = generate_uuid();
        let inlet_uuid = generate_uuid();
        let outlet_uuid = generate_uuid();
        let c = Config::default_with_ids(ipc_uuid, inlet_uuid, outlet_uuid);
        proof {
            assert(is_default_config(c, ipc_uuid@, inlet_uuid@, outlet_uuid@));
        }
        c
    }
}


/// Whether an identifier read from a configuration file still has to be
/// generated: it is empty or the placeholder `auto-generated`.
pub open spec fn id_missing(s: Seq<char>) -> bool {
    s.len() == 0 || s == "auto-generated"@
}

/// The name a collector gets when its file names none.
pub open spec fn default_ipc_name() -> Seq<char> {
    "Industrial Data Collector"@
}

/// `a` is `b` with perhaps another UUID.
pub open spec fn same_but_uuid(a: DeviceConfig, b: DeviceConfig) -> bool {
    a.same(DeviceConfig { uuid: a.uuid, ..b })
}

/// What loading does to a device: a missing UUID is generated.
pub open spec fn loaded_device(new: DeviceConfig, old: DeviceConfig) -> bool {
    if id_missing(old.uuid@) {
        is_random_uuid(new.uuid@) && same_but_uuid(new, old)
    } else {
        new.same(old)
    }
}

/// Whether `s` is empty or `auto-generated`.
fn is_missing_id(s: &str) -> (r: bool)
    ensures
        r == id_missing(s@),
{
    s.unicode_len() == 0 || str_eq(s, "auto-generated")
}

impl Config {
    /// Completes a configuration read from a file: generates the IPC UUID and
    /// device UUIDs that are missing, names and versions an unnamed or
    /// unversioned collector, and sets the legacy address list to the
    /// addresses of all devices.
    pub fn complete_loaded(&mut self)
        ensures
            id_missing(old(self).ipc_uuid@) ==> is_random_uuid(final(self).ipc_uuid@),
            !id_missing(old(self).ipc_uuid@) ==> final(self).ipc_uuid == old(self).ipc_uuid,
            final(self).ipc_name@ == (if old(self).ipc_name@.len() == 0 {
                default_ipc_name()
            } else {
                old(self).ipc_name@
            }),
            final(self).ipc_version@ == (if old(self).ipc_version@.len() == 0 {
                crate::VERSION@
            } else {
                old(self).ipc_version@
            }),
            final(self).devices.len() == old(self).devices.len(),
            forall|i: int|
                0 <= i < old(self).devices.len() ==> #[trigger] loaded_device(
                    final(self).devices@[i],
                    old(self).devices@[i],
                ),
            final(self).device_addresses@ == addresses_of(old(self).devices@),
            *final(self) == (Config {
                ipc_uuid: final(self).ipc_uuid,
                ipc_name: final(self).ipc_name,
                ipc_version: final(self).ipc_version,
                devices: final(self).devices,
                device_addresses: final(self).device_addresses,
                ..*old(self)
            }),
    {
        if is_missing_id(self.ipc_uuid.as_str()) {
            self.ipc_uuid = generate_uuid();
        }
        if self.ipc_name.as_str().unicode_len() == 0 {
            self.ipc_name = owned("Industrial Data Collector");
        }
        if self.ipc_version.as_str().unicode_len() == 0 {
            self.ipc_version = owned(crate::VERSION);
        }
        self.sync_device_addresses();
        let ghost addrs = self.device_addresses@;
        let mut devices: Vec<DeviceConfig> = Vec::new();
        let mut i: usize = 0;
        while i < self.devices.len()
            invariant
                i <= self.devices.len(),
                devices.len() == i,
                forall|j: int| 0 <= j < i ==> #[trigger] loaded_device(devices@[j], self.devices@[j]),
            decreases self.devices.len() - i,
        {
            let mut d = self.devices[i].clone();
            if is_missing_id(d.uuid.as_str()) {
                d.uuid = generate_uuid();
            }
            devices.push(d);
            i += 1;
        }
        self.devices = devices;
    }
}

} // verus!

use ipc_tracking::config::arguments::parse_device_list;
use ipc_tracking::config::metadata::Metadata;
use ipc_tracking::config::settings::{get_default_parameters_for_type, ParityConfig};
use ipc_tracking::config::{Config, DeviceConfig};
use ipc_tracking::text::{trim, IntErrorKind};

fn is_uuid(s: &str) -> bool {
    s.len() == 36
        && s.chars().enumerate().all(|(i, c)| {
            if i == 8 || i == 13 || i == 18 || i == 23 {
                c == '-'
            } else {
                c.is_ascii_digit() || ('a'..='f').contains(&c)
            }
        })
}

fn device(address: u8, device_type: &str, uuid: &str) -> DeviceConfig {
    DeviceConfig {
        uuid: uuid.to_string(),
        address,
        device_type: device_type.to_string(),
        name: format!("dev{}", address),
        location: "here".to_string(),
        enabled: true,
        polling_interval: None,
        parameters: vec![],
        metadata: Metadata::new(),
    }
}

#[test]
fn default_configuration() {
    let c = Config::default();
    assert!(is_uuid(c.get_ipc_uuid()));
    assert_eq!(c.get_ipc_name(), "Industrial Data Collector");
    assert_eq!(c.get_ipc_version(), "1.0.0");
    assert_eq!(c.serial_port, "/dev/ttyS0");
    assert_eq!(c.baud_rate, 9600);
    assert_eq!(c.parity, ParityConfig::NoParity);
    assert_eq!(c.devices.len(), 2);
    assert_eq!(c.devices[0].address, 2);
    assert_eq!(c.devices[1].name, "Outlet Flowmeter");
    assert_eq!(c.device_addresses, vec![2, 3]);
    assert_eq!(c.get_mtws_endpoint_url(), "http://mtws.masihplayground.my.id:80/SubmitForm/123456789012345");
    assert_eq!(c.get_device_imei(), "123456789012345");
}

#[test]
fn setters_and_lookups() {
    let mut c = Config::default();
    c.set_ipc_name("Vessel 7".to_string());
    assert_eq!(c.get_ipc_name(), "Vessel 7");
    let before = c.ipc_uuid.clone();
    c.regenerate_ipc_uuid();
    assert!(is_uuid(&c.ipc_uuid));
    assert_ne!(c.ipc_uuid, before);
    assert_eq!(c.get_device_by_address(3).map(|d| d.name.clone()), Some("Outlet Flowmeter".to_string()));
    assert!(c.get_device_by_address(9).is_none());
    assert_eq!(c.get_device_by_name("Inlet Flowmeter").map(|d| d.address), Some(2));
    c.devices[1].enabled = false;
    assert_eq!(c.device_addresses(), vec![2]);
    assert_eq!(c.get_enabled_devices().len(), 1);
    assert_eq!(c.get_enabled_flowmeter_devices().len(), 1);
}

#[test]
fn rpm_and_aio_settings_from_metadata() {
    let mut c = Config::default();
    let mut rpm = device(5, "rpm", "u5");
    rpm.metadata.insert("total_channels".to_string(), "3".to_string());
    rpm.metadata.insert("rpm_threshold".to_string(), "400".to_string());
    rpm.metadata.insert("rpm_threshold_ch2".to_string(), "650".to_string());
    rpm.metadata.insert("outlier_detection_threshold".to_string(), "200".to_string());
    rpm.metadata.insert("auto_detect_channels".to_string(), "false".to_string());
    c.devices.push(rpm);
    assert_eq!(c.get_rpm_channel_config(5), (3, vec![400, 650, 400]));
    assert_eq!(c.get_rpm_channel_config(2), (2, vec![500, 500]));
    assert_eq!(c.get_rpm_outlier_settings(5), (200, 15));
    assert!(!c.is_rpm_auto_detect_enabled(5));
    assert!(c.is_rpm_auto_detect_enabled(2));

    let mut aio = device(7, "aio", "u7");
    aio.metadata.insert("total_analog_channels".to_string(), "2".to_string());
    aio.metadata.insert("channel_types".to_string(), "rpm,pulse".to_string());
    aio.metadata.insert("channel_2_threshold".to_string(), "12".to_string());
    aio.metadata.insert("baud_rate".to_string(), "19200".to_string());
    c.devices.push(aio);
    assert_eq!(c.get_aio_channel_config(7), (2, 16, vec!["rpm".to_string(), "pulse".to_string()]));
    assert_eq!(c.get_aio_channel_thresholds(7), vec![500, 12]);
    assert_eq!(c.get_aio_baud_rate(7), 19200);
    assert_eq!(c.get_aio_baud_rate(2), 9600);
    assert!(c.is_aio_auto_detect_enabled(7));
}

#[test]
fn flowmeter_validation() {
    let mut c = Config::default();
    assert_eq!(c.validate_flowmeter_config(), Ok(()));
    c.devices[1].address = 2;
    assert_eq!(c.validate_flowmeter_config(), Err("Duplicate flowmeter address: 2".to_string()));
    c.devices[0].enabled = false;
    c.devices[1].enabled = false;
    assert_eq!(c.validate_flowmeter_config(), Err("No flowmeter devices configured".to_string()));
}

#[test]
fn telemetry_validation() {
    let mut c = Config::default();
    assert_eq!(c.validate_mtws_config(), Ok(()));
    c.mtws.imei = "12345".to_string();
    assert_eq!(c.validate_mtws_config(), Err("IMEI must be exactly 15 digits".to_string()));
    c.mtws.imei = "123456789012345".to_string();
    c.mtws.transmission_interval_seconds = 30;
    assert_eq!(c.validate_mtws_config(), Err("Transmission interval must be at least 60 seconds".to_string()));
    c.mtws.enabled = false;
    assert_eq!(c.validate_mtws_config(), Ok(()));
}

#[test]
fn default_parameters_per_type() {
    assert_eq!(get_default_parameters_for_type("rpm"), vec!["RPM", "EngineDuration", "IsRunning"]);
    assert_eq!(get_default_parameters_for_type("other"), vec!["Status"]);
    let c = Config::default();
    let d = c.create_new_device(9, "id".to_string(), "gps".to_string(), "G".to_string(), "L".to_string());
    assert!(is_uuid(&d.uuid));
    assert_eq!(d.parameters, vec!["Latitude", "Longitude", "Speed", "Course"]);
}

#[test]
fn completing_a_loaded_configuration() {
    let mut c = Config::default();
    c.ipc_uuid = "auto-generated".to_string();
    c.ipc_name = String::new();
    c.ipc_version = String::new();
    c.devices[0].uuid = String::new();
    c.devices[1].uuid = "keep-me".to_string();
    c.device_addresses = vec![];
    c.complete_loaded();
    assert!(is_uuid(&c.ipc_uuid));
    assert_eq!(c.ipc_name, "Industrial Data Collector");
    assert_eq!(c.ipc_version, "1.0.0");
    assert!(is_uuid(&c.devices[0].uuid));
    assert_eq!(c.devices[1].uuid, "keep-me");
    assert_eq!(c.device_addresses, vec![2, 3]);
    let again = c.clone();
    c.complete_loaded();
    assert_eq!(c.ipc_uuid, again.ipc_uuid);
    assert_eq!(c.devices[0].uuid, again.devices[0].uuid);
}

#[test]
fn device_list_parsing() {
    assert_eq!(parse_device_list("2,3"), Ok(vec![2, 3]));
    assert_eq!(parse_device_list(" 4 , +5 ,6"), Ok(vec![4, 5, 6]));
    assert_eq!(parse_device_list("2,,3"), Err(IntErrorKind::Empty));
    assert_eq!(parse_device_list("2,x"), Err(IntErrorKind::InvalidDigit));
    assert_eq!(parse_device_list("256"), Err(IntErrorKind::PosOverflow));
    assert_eq!(parse_device_list("999x"), Err(IntErrorKind::PosOverflow));
    assert_eq!(parse_device_list("-1"), Err(IntErrorKind::InvalidDigit));
    assert_eq!(IntErrorKind::Empty.message(), "cannot parse integer from empty string");
}

#[test]
fn trimming() {
    assert_eq!(trim("  a b \t\n"), "a b");
    assert_eq!(trim("\u{3000}x\u{a0}"), "x");
    assert_eq!(trim("   "), "");
}

#[test]
fn arguments_build_the_configuration() {
    let c = Config::from_arguments("/dev/ttyUSB0".to_string(), "19200", "5", Some("3,4,4")).unwrap();
    assert_eq!(c.serial_port, "/dev/ttyUSB0");
    assert_eq!(c.baud_rate, 19200);
    assert_eq!(c.update_interval_seconds, 5);
    assert_eq!(c.device_addresses, vec![3, 4, 4]);
    assert_eq!(c.devices.len(), 2);
    assert_eq!(c.devices[0].name, "Outlet Flowmeter");
    assert_eq!(c.devices[1].address, 4);
    assert_eq!(c.devices[1].name, "Device 4");
    assert_eq!(c.devices[1].location, "Unknown");
    assert_eq!(c.devices[1].device_type, "flowmeter");
    assert_eq!(c.devices[1].parameters, vec!["MassFlowRate", "Temperature"]);
    assert!(is_uuid(&c.devices[1].uuid));

    let d = Config::from_arguments("/dev/ttyS1".to_string(), "9600", "10", None).unwrap();
    assert_eq!(d.devices.len(), 2);
    assert_eq!(d.device_addresses, vec![2, 3]);

    assert!(matches!(Config::from_arguments("p".to_string(), "fast", "10", None), Err(IntErrorKind::InvalidDigit)));
    assert!(matches!(Config::from_arguments("p".to_string(), "9600", "", None), Err(IntErrorKind::Empty)));
    assert!(matches!(Config::from_arguments("p".to_string(), "9600", "1", Some("1,300")), Err(IntErrorKind::PosOverflow)));
}

#[test]
fn default_identifiers_are_random_uuids() {
    let c = ipc_tracking::config::Config::default();
    for id in [&c.ipc_uuid, &c.devices[0].uuid, &c.devices[1].uuid] {
        let chars: Vec<char> = id.chars().collect();
        assert_eq!(chars.len(), 36);
        assert_eq!(chars[14], '4');
        assert!(matches!(chars[19], '8' | '9' | 'a' | 'b'));
        for (i, ch) in chars.iter().enumerate() {
            if [8, 13, 18, 23].contains(&i) {
                assert_eq!(*ch, '-');
            } else {
                assert!(ch.is_ascii_hexdigit() && !ch.is_ascii_uppercase());
            }
        }
    }
    assert_ne!(c.ipc_uuid, c.devices[0].uuid);
}

#[test]
fn default_service_settings() {
    let c = Config::default();
    assert!(c.api_server.cors_enabled);
    assert_eq!(c.api_server.cors_origins, vec!["*".to_string()]);
    let db = c.output.database_output.as_ref().unwrap();
    let q = &db.sqlite_config;
    assert_eq!(q.database_path, "data/sensor_data.db");
    assert_eq!((q.max_connections, q.connection_timeout_seconds, q.cache_size, q.batch_size), (5, 30, 2000, 500));
    assert_eq!((q.busy_timeout_ms, q.cache_size_kb), (30000, 2000));
    assert!(!q.enable_wal && q.auto_vacuum && !q.wal_mode);
    assert_eq!(q.sync_mode, "OFF");
    assert_eq!((c.mtws.timeout_seconds, c.mtws.retry_attempts, c.mtws.retry_delay_seconds), (30, 3, 60));
    assert!(c.mtws.auto_start);
}

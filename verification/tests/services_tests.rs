use ipc_tracking::config::metadata::Metadata;
use ipc_tracking::config::{Config, DeviceConfig};
use ipc_tracking::devices::gps::{
    fix_type_name, is_fresh_fix, parse_qgpsloc, qgpsloc_fields, take_line, GpsLoopAction, GpsReadOutcome,
    GpsServiceState,
};
use ipc_tracking::services::data_service::{
    build_device_registry, get_flowmeter_devices, get_rpm_devices, gps_check_step, reading_plan, PolledDevice,
    ReadStep,
};
use ipc_tracking::utils::error::ModbusError;

fn device(address: u8, device_type: &str, uuid: &str, enabled: bool) -> DeviceConfig {
    DeviceConfig {
        uuid: uuid.to_string(),
        address,
        device_type: device_type.to_string(),
        name: format!("dev{}", address),
        location: "deck".to_string(),
        enabled,
        polling_interval: None,
        parameters: vec![],
        metadata: Metadata::new(),
    }
}

fn config_with(devices: Vec<DeviceConfig>) -> Config {
    let mut c = Config::default();
    c.devices = devices;
    c
}

#[test]
fn qgpsloc_answer_fields() {
    let line = "+QGPSLOC: 061951.000,0617.5017S,10647.6637E,1.2,62.2,3,000.00,5.4,2.9,130725,09";
    let f = qgpsloc_fields(line).unwrap();
    assert_eq!(f.len(), 11);
    assert_eq!(f[1], "0617.5017S");
    let r = parse_qgpsloc(line).unwrap();
    assert_eq!(r.utc_time, "061951.000");
    assert_eq!(r.latitude, "0617.5017S");
    assert_eq!(r.longitude, "10647.6637E");
    assert_eq!(r.altitude, "62.2");
    assert_eq!(r.fix_type, Some("3D fix".to_string()));
    assert_eq!(r.course, "000.00");
    assert_eq!(r.speed_kmh, "5.4");
    assert_eq!(r.satellites, Some(9));
    assert!(parse_qgpsloc("+QGPSLOC: 1,2,3").is_none());
    assert!(parse_qgpsloc("+QGPSLOC:061951.000,a,b,c,d,e,f,g,h,i,j").is_none());
    assert!(parse_qgpsloc("$GPGGA,1,2,3,4,5,6,7,8,9,10,11").is_none());
    let odd = parse_qgpsloc("+QGPSLOC: t,a,b,c,d,x,f,g,h,i,").unwrap();
    assert_eq!(odd.fix_type, None);
    assert_eq!(odd.satellites, None);
}

#[test]
fn fix_type_names() {
    assert_eq!(fix_type_name(0), "No fix");
    assert_eq!(fix_type_name(1), "Dead reckoning");
    assert_eq!(fix_type_name(2), "2D fix");
    assert_eq!(fix_type_name(7), "Unknown(7)");
}

#[test]
fn lines_come_out_of_the_buffer() {
    let mut buf = "  +QGPSLOC: x \r\r\nOK\r\npart".to_string();
    assert_eq!(take_line(&mut buf), Some("+QGPSLOC: x".to_string()));
    assert_eq!(buf, "OK\r\npart");
    assert_eq!(take_line(&mut buf), Some("OK".to_string()));
    assert_eq!(take_line(&mut buf), None);
    assert_eq!(buf, "part");
}

#[test]
fn fresh_fixes() {
    assert!(is_fresh_fix(true, Some(100), 130));
    assert!(!is_fresh_fix(true, Some(100), 131));
    assert!(!is_fresh_fix(false, Some(100), 100));
    assert!(!is_fresh_fix(true, None, 100));
}

#[test]
fn gps_service_status_follows_reads() {
    let mut s = GpsServiceState::new();
    assert_eq!(s.get_status(), "Initialized");
    assert!(s.begin_start());
    assert_eq!(s.get_status(), "Connecting");
    s.connection_failed(&ModbusError::ConnectionError("no port".to_string()));
    assert_eq!(s.get_status(), "Connection Failed: Connection error: no port");
    assert!(s.begin_start());
    s.connected();
    assert!(s.is_running());
    assert!(!s.begin_start());
    assert_eq!(s.record_read(&GpsReadOutcome::Reading { valid: false }), GpsLoopAction::StoreReading);
    assert_eq!(s.get_status(), "Reading - Searching for GPS signal");
    for _ in 0..4 {
        assert_eq!(s.record_read(&GpsReadOutcome::NoData), GpsLoopAction::Continue);
    }
    assert_eq!(s.get_status(), "Reading - Searching for GPS signal");
    s.record_read(&GpsReadOutcome::NoData);
    assert_eq!(s.get_status(), "Reading - No signal (5 attempts)");
    for _ in 0..4 {
        assert_eq!(s.record_read(&GpsReadOutcome::Failed("timeout".to_string())), GpsLoopAction::Continue);
    }
    assert_eq!(
        s.record_read(&GpsReadOutcome::Failed("timeout".to_string())),
        GpsLoopAction::Reconnect
    );
    assert_eq!(s.get_status(), "Error - Connection issues: timeout");
    assert!(!s.should_show_fix_age(31_000_000_000));
    s.reconnected();
    assert_eq!(s.record_read(&GpsReadOutcome::Reading { valid: true }), GpsLoopAction::ShowFix);
    s.show_fix("Reading - Valid Fix: 1.000000, 2.000000 (7 sats)".to_string());
    assert!(s.should_show_fix_age(31_000_000_000));
    assert!(!s.should_show_fix_age(30_000_000_000));
    s.stop();
    assert!(!s.is_running());
    assert_eq!(s.get_status(), "Stopped");
}

#[test]
fn registry_polls_enabled_flowmeters_and_rpm_sensors() {
    let mut rpm = device(5, "RPM", "u5", true);
    rpm.metadata.insert("total_channels".to_string(), "3".to_string());
    let c = config_with(vec![
        device(2, "flowmeter", "u2", true),
        device(3, "flowmeter", "u3", false),
        device(4, "gps", "u4", true),
        rpm,
        device(2, "FlowMeter", "u2b", true),
    ]);
    let r = build_device_registry(&c);
    assert_eq!(r.devices.len(), 3);
    match &r.devices[0] {
        PolledDevice::Flowmeter(f) => assert_eq!((f.address, f.name.as_str()), (2, "dev2")),
        _ => panic!("expected a flowmeter"),
    }
    match &r.devices[1] {
        PolledDevice::Rpm(d) => assert_eq!(d.address(), 5),
        _ => panic!("expected an RPM sensor"),
    }
    assert_eq!(r.uuid_for_address(2).map(|s| s.as_str()), Some("u2b"));
    assert_eq!(r.uuid_for_address(5).map(|s| s.as_str()), Some("u5"));
    assert_eq!(r.uuid_for_address(3), None);
    assert_eq!(r.address_for_uuid("u5"), Some(5));
    assert_eq!(r.address_for_uuid("u2"), None);
    assert_eq!(r.address_for_uuid("u2b"), Some(2));
}

#[test]
fn reading_cycle_plan() {
    let c = config_with(vec![
        device(2, "flowmeter", "u2", true),
        device(4, "gps", "u4", true),
        device(5, "rpm", "u5", true),
        device(6, "pump", "u6", true),
        device(7, "rpm", "u7", false),
    ]);
    let plan = reading_plan(&c);
    assert_eq!(plan.len(), 4);
    assert!(matches!(&plan[0], ReadStep::Flowmeter { device, uuid } if device.address == 2 && uuid == "u2"));
    assert!(matches!(&plan[1], ReadStep::Gps));
    assert!(matches!(&plan[2], ReadStep::Rpm { device, uuid } if device.total_channels() == 2 && uuid == "u5"));
    assert!(matches!(&plan[3], ReadStep::Unknown(t) if t == "pump"));
    assert_eq!(get_rpm_devices(&c).len(), 1);
    assert_eq!(get_flowmeter_devices(&c).len(), 1);
}

#[test]
fn gps_checks_every_third_cycle() {
    assert_eq!(gps_check_step(0), (1, false));
    assert_eq!(gps_check_step(1), (2, false));
    assert_eq!(gps_check_step(2), (0, true));
}

use ipc_tracking::cli::commands::{
    engine_reset_address, parse_config_target, mtws_config_update, mtws_status_lines, rpm_channel_status_line, rpm_device_status_line,
    rpm_read_target, MtwsUpdateRefusal,
};
use ipc_tracking::config::dynamic_manager::ConfigTarget;
use ipc_tracking::services::api_service::MtwsStatus;
use ipc_tracking::utils::error::ModbusError;

#[test]
fn config_update_with_interval_only() {
    let u = mtws_config_update(Some("30"), None).unwrap();
    assert_eq!(u.interval_seconds, Some(30));
    assert_eq!(u.endpoint_url, None);
}

#[test]
fn config_update_with_endpoint_only() {
    let u = mtws_config_update(None, Some("http://example.org/ingest")).unwrap();
    assert_eq!(u.interval_seconds, None);
    assert_eq!(u.endpoint_url.as_deref(), Some("http://example.org/ingest"));
}

#[test]
fn config_update_with_both() {
    let u = mtws_config_update(Some("+45"), Some("http://h/x")).unwrap();
    assert_eq!(u.interval_seconds, Some(45));
    assert_eq!(u.endpoint_url.as_deref(), Some("http://h/x"));
}

#[test]
fn config_update_refuses_bad_interval_first() {
    let r = mtws_config_update(Some("ten"), Some("http://h/x"));
    match r {
        Err(MtwsUpdateRefusal::InvalidInterval(s)) => assert_eq!(s, "ten"),
        other => panic!("unexpected {:?}", other),
    }
    let refusal = mtws_config_update(Some("-1"), None).unwrap_err();
    assert_eq!(refusal.message(), "Invalid interval value: -1");
}

#[test]
fn config_update_refuses_empty_request() {
    let refusal = mtws_config_update(None, None).unwrap_err();
    assert!(matches!(refusal, MtwsUpdateRefusal::NothingToUpdate));
    assert_eq!(refusal.message(), "No configuration parameters provided");
}

#[test]
fn status_lines_running() {
    let s = MtwsStatus {
        is_running: true,
        interval_seconds: 60,
        endpoint_url: "http://h/api/123".to_string(),
        enabled: true,
    };
    assert_eq!(
        mtws_status_lines(&s),
        vec![
            "  Status: 🟢 Running".to_string(),
            "  Interval: 60 seconds".to_string(),
            "  Endpoint: http://h/api/123".to_string(),
            "  Enabled: Yes".to_string(),
        ]
    );
}

#[test]
fn status_lines_stopped() {
    let s = MtwsStatus { is_running: false, interval_seconds: 0, endpoint_url: String::new(), enabled: false };
    let lines = mtws_status_lines(&s);
    assert_eq!(lines[0], "  Status: 🔴 Stopped");
    assert_eq!(lines[1], "  Interval: 0 seconds");
    assert_eq!(lines[2], "  Endpoint: ");
    assert_eq!(lines[3], "  Enabled: No");
}

#[test]
fn rpm_status_lines() {
    assert_eq!(
        rpm_device_status_line(3, "Engine RPM", 4, 2, "Online"),
        "  Device 3 (Engine RPM): 4 channels, 2 running, Status: Online"
    );
    assert_eq!(rpm_channel_status_line(1, 1500, 300, true), "    Channel 1: 1500 RPM (threshold: 300) - 🟢 RUNNING");
    assert_eq!(rpm_channel_status_line(2, 0, 300, false), "    Channel 2: 0 RPM (threshold: 300) - 🔴 STOPPED");
}

#[test]
fn rpm_read_arguments() {
    assert_eq!(rpm_read_target(None, None), Err(ModbusError::InvalidData("Address is required".to_string())));
    assert_eq!(
        rpm_read_target(Some("256"), None),
        Err(ModbusError::InvalidData("Invalid address format".to_string()))
    );
    assert_eq!(rpm_read_target(Some("5"), None), Ok((5, None)));
    assert_eq!(rpm_read_target(Some("5"), Some("3")), Ok((5, Some(3))));
    assert_eq!(rpm_read_target(Some("5"), Some("zz")), Ok((5, Some(0))));
}

#[test]
fn engine_reset_arguments() {
    assert_eq!(engine_reset_address("7"), Ok(7));
    assert_eq!(
        engine_reset_address("x7"),
        Err(ModbusError::DeviceNotFound("Invalid address format".to_string()))
    );
}

#[test]
fn config_targets_by_name() {
    assert!(matches!(parse_config_target("serial"), Some(ConfigTarget::Serial)));
    assert!(matches!(parse_config_target("monitoring"), Some(ConfigTarget::Monitoring)));
    assert!(matches!(parse_config_target("site"), Some(ConfigTarget::Site)));
    assert!(matches!(parse_config_target("system"), Some(ConfigTarget::System)));
    assert!(matches!(parse_config_target("gps"), Some(ConfigTarget::Gps)));
    assert!(matches!(parse_config_target("device:12"), Some(ConfigTarget::Device { address: 12 })));
    assert!(parse_config_target("device:300").is_none());
    assert!(parse_config_target("Serial").is_none());
    match parse_config_target("output:mqtt") {
        Some(ConfigTarget::Output { output_type }) => assert_eq!(output_type, "mqtt"),
        other => panic!("unexpected {:?}", other),
    }
}

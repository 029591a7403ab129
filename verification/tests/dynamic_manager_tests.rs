use ipc_tracking::config::dynamic_manager::{
    build_response, needs_save, ConfigCommandType, ConfigTarget, ConfigurationCommand, DynamicConfigManager,
};
use ipc_tracking::config::Config;
use ipc_tracking::utils::error::ModbusError;

fn command(kind: ConfigCommandType, target: ConfigTarget, params: &[(&str, &str)]) -> ConfigurationCommand {
    ConfigurationCommand {
        command_id: "cmd-1".to_string(),
        timestamp: 1700000000,
        operator: "tester".to_string(),
        command_type: kind,
        target,
        parameters: params.iter().map(|(k, v)| (k.to_string(), v.to_string())).collect(),
        apply_immediately: true,
    }
}

fn manager() -> DynamicConfigManager {
    DynamicConfigManager::new(Config::default(), "config/settings.toml", "config/backups")
}

#[test]
fn names_of_commands_and_targets() {
    assert_eq!(ConfigCommandType::SetValue.to_string(), "SET");
    assert_eq!(ConfigCommandType::Restore.to_string(), "RESTORE");
    assert_eq!(ConfigTarget::Device { address: 5 }.to_string(), "Device[5]");
    assert_eq!(ConfigTarget::Output { output_type: "mqtt".to_string() }.to_string(), "Output[mqtt]");
}

#[test]
fn set_ipc_name_reports_old_and_new() {
    let mut m = manager();
    let c = command(ConfigCommandType::SetValue, ConfigTarget::System, &[("ipc_name", "Vessel 7")]);
    let r = m.process_command(&c).unwrap().unwrap();
    assert_eq!(
        r,
        (
            true,
            "IPC name updated from 'Industrial Data Collector' to 'Vessel 7'".to_string(),
            Some("Industrial Data Collector".to_string()),
            Some("Vessel 7".to_string()),
            false
        )
    );
    assert_eq!(m.get_current_config().ipc_name, "Vessel 7");
}

#[test]
fn polling_interval_bounds() {
    let mut m = manager();
    let bad = command(ConfigCommandType::SetValue, ConfigTarget::Monitoring, &[("update_interval_seconds", "abc")]);
    assert_eq!(m.process_command(&bad), Some(Err(ModbusError::InvalidData("Invalid interval value".to_string()))));
    let big = command(ConfigCommandType::SetValue, ConfigTarget::Monitoring, &[("update_interval_seconds", "4000")]);
    let r = m.process_command(&big).unwrap().unwrap();
    assert!(!r.0);
    assert_eq!(r.1, "Interval must be between 1 and 3600 seconds");
    assert_eq!(m.get_current_config().update_interval_seconds, 10);
    let ok = command(ConfigCommandType::SetValue, ConfigTarget::Monitoring, &[("update_interval_seconds", "30")]);
    let r = m.process_command(&ok).unwrap().unwrap();
    assert!(r.0);
    assert_eq!(m.get_current_config().update_interval_seconds, 30);
}

#[test]
fn no_parameters_no_match() {
    let mut m = manager();
    let c = command(ConfigCommandType::SetValue, ConfigTarget::Serial, &[]);
    let r = m.process_command(&c).unwrap().unwrap();
    assert_eq!(r, (false, "No matching parameters found".to_string(), None, None, false));
}

#[test]
fn serial_port_change_needs_restart() {
    let mut m = manager();
    let c = command(ConfigCommandType::SetValue, ConfigTarget::Serial, &[("port", "/dev/ttyUSB0")]);
    let r = m.process_command(&c).unwrap().unwrap();
    assert_eq!(r.1, "Serial port changed from /dev/ttyS0 to /dev/ttyUSB0");
    assert!(r.4);
}

#[test]
fn enable_disable_remove_devices() {
    let mut m = manager();
    let off = command(ConfigCommandType::Disable, ConfigTarget::Device { address: 3 }, &[]);
    let r = m.process_command(&off).unwrap().unwrap();
    assert_eq!(r, (true, "Device 3 disabled".to_string(), Some("true".to_string()), Some("false".to_string()), false));
    assert!(!m.get_current_config().devices[1].enabled);
    let missing = command(ConfigCommandType::Enable, ConfigTarget::Device { address: 9 }, &[]);
    assert_eq!(
        m.process_command(&missing),
        Some(Err(ModbusError::DeviceNotFound("Device with address 9 not found".to_string())))
    );
    let rm = command(ConfigCommandType::Remove, ConfigTarget::Device { address: 2 }, &[]);
    let r = m.process_command(&rm).unwrap().unwrap();
    assert_eq!(r.1, "Removed device: Inlet Flowmeter (2)");
    assert_eq!(m.get_current_config().devices.len(), 1);
}

#[test]
fn backup_and_restore_are_left_to_the_caller() {
    let mut m = manager();
    let b = command(ConfigCommandType::Backup, ConfigTarget::System, &[("name", "nightly")]);
    assert!(m.process_command(&b).is_none());
    assert_eq!(m.backup_name(&b), "nightly");
    assert_eq!(m.backup_path_for("nightly"), "config/backups/nightly.toml");
    let r = m.handle_backup_result("config/backups/nightly.toml".to_string(), Ok(()));
    assert_eq!(
        r,
        Ok((
            true,
            "Configuration backed up to: config/backups/nightly.toml".to_string(),
            None,
            Some("config/backups/nightly.toml".to_string()),
            false
        ))
    );
    let e = m.handle_backup_result("p".to_string(), Err("disk full".to_string()));
    assert_eq!(e, Err(ModbusError::CommunicationError("Failed to create backup: disk full".to_string())));
    let no_name = command(ConfigCommandType::Restore, ConfigTarget::System, &[]);
    assert_eq!(m.restore_path(&no_name), Err(ModbusError::InvalidData("Backup name required for restore".to_string())));
    let mut other = Config::default();
    other.devices.pop();
    let r = m.handle_restore_result("x.toml".to_string(), Ok(other)).unwrap();
    assert_eq!(r.1, "Configuration restored from: x.toml");
    assert_eq!(r.2, Some("2".to_string()));
    assert_eq!(r.3, Some("1".to_string()));
    assert_eq!(m.get_current_config().devices.len(), 1);
}

#[test]
fn responses_report_save_failures() {
    let c = command(ConfigCommandType::SetValue, ConfigTarget::System, &[("ipc_name", "X")]);
    let ok: Result<(bool, String, Option<String>, Option<String>, bool), ModbusError> =
        Ok((true, "done".to_string(), None, None, false));
    assert!(needs_save(&ok, true));
    assert!(!needs_save(&ok, false));
    let resp = build_response(&c, 42, ok.clone(), Some(Ok(())));
    assert!(resp.success);
    assert_eq!(resp.message, "done");
    assert_eq!(resp.timestamp, 42);
    let failed = build_response(&c, 42, ok, Some(Err("denied".to_string())));
    assert!(!failed.success);
    assert_eq!(
        failed.message,
        "Command executed but failed to save: Communication error: Failed to save config: denied"
    );
    let err = build_response(&c, 42, Err(ModbusError::Timeout), None);
    assert!(!err.success);
}

fn device_summary(c: &Config) -> Vec<(String, u8, String, String, bool)> {
    c.devices.iter().map(|d| (d.uuid.clone(), d.address, d.device_type.clone(), d.name.clone(), d.enabled)).collect()
}

#[test]
fn remove_undoes_add() {
    let mut m = manager();
    let before = device_summary(m.get_current_config());
    let add = command(ConfigCommandType::Add, ConfigTarget::Device { address: 9 }, &[("device_type", "rpm"), ("name", "Aux")]);
    let r = m.process_command(&add).unwrap().unwrap();
    assert!(r.0);
    assert_eq!(m.get_current_config().devices.len(), before.len() + 1);
    let remove = command(ConfigCommandType::Remove, ConfigTarget::Device { address: 9 }, &[]);
    let r = m.process_command(&remove).unwrap().unwrap();
    assert_eq!(r.1, "Removed device: Aux (9)");
    assert_eq!(device_summary(m.get_current_config()), before);
}

#[test]
fn enable_undoes_disable() {
    let mut m = manager();
    let before = device_summary(m.get_current_config());
    let off = command(ConfigCommandType::Disable, ConfigTarget::Device { address: 3 }, &[]);
    let r = m.process_command(&off).unwrap().unwrap();
    assert_eq!(r.1, "Device 3 disabled");
    assert!(!m.get_current_config().devices[1].enabled);
    let on = command(ConfigCommandType::Enable, ConfigTarget::Device { address: 3 }, &[]);
    let r = m.process_command(&on).unwrap().unwrap();
    assert_eq!(r.1, "Device 3 enabled");
    assert_eq!(device_summary(m.get_current_config()), before);
}

#[test]
fn unnamed_backup_is_stamped() {
    let m = manager();
    let c = command(ConfigCommandType::Backup, ConfigTarget::System, &[]);
    let n = m.backup_name(&c);
    let stamp: Vec<char> = n.strip_prefix("backup_").unwrap().chars().collect();
    assert_eq!(stamp.len(), 15);
    assert_eq!(stamp[8], '_');
    assert!(stamp.iter().enumerate().all(|(i, c)| i == 8 || c.is_ascii_digit()));
    let named = command(ConfigCommandType::Backup, ConfigTarget::System, &[("name", "before_update")]);
    assert_eq!(m.backup_name(&named), "before_update");
}

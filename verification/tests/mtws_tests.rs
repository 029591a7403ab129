use ipc_tracking::config::Config;
use ipc_tracking::modbus::crc::crc16_modbus;
use ipc_tracking::services::api_service::{get_mtws_status, SendMtwsPayloadRequest};
use ipc_tracking::services::mtws::{
    build_payload_at, build_payload_hex_at, check_http_response, collect_engines, sent_payload_message,
    split_engines, FlowmeterValues, GpsFigures, Measurement, MtwsService, PayloadInput, RpmDeviceInput,
};
use ipc_tracking::utils::error::ModbusError;

fn empty_input() -> PayloadInput {
    PayloadInput { gps: None, flowmeters: vec![], rpm_devices: vec![], aio_devices: vec![] }
}

fn field<'a>(p: &'a ipc_tracking::storage::models::MtwsPayload, name: &str) -> Option<&'a str> {
    p.fields.iter().find(|f| f.name == name).map(|f| f.value.as_str())
}

fn m(text: &str, v: f32) -> Measurement {
    Measurement { text: text.to_string(), bits: v.to_bits() }
}

#[test]
fn empty_report_fields() {
    let p = build_payload_at(&empty_input(), 1700000000);
    assert_eq!(p.sin, 128);
    assert_eq!(p.name, "ReportMsg");
    assert_eq!(p.min, 1);
    assert!(!p.is_forward);
    assert_eq!(p.fields.len(), 22);
    assert_eq!(p.fields[0].name, "timestamp");
    assert_eq!(p.fields[0].value, "1700000000");
    assert_eq!(field(&p, "speed"), Some("0.00"));
    assert_eq!(field(&p, "batteryVoltage"), Some("8086"));
    assert_eq!(field(&p, "flowmeterVolumeTotal1"), Some("0"));
    assert_eq!(field(&p, "fuelLevelMM"), Some("0"));
    assert_eq!(field(&p, "engineDurationAE3"), Some("0"));
    assert_eq!(field(&p, "statusAE3"), Some("false"));
}

#[test]
fn report_with_gps_flowmeters_and_engines() {
    let input = PayloadInput {
        gps: Some(GpsFigures {
            longitude: -6_000_000,
            latitude: 300_000,
            speed_text: "12.34".to_string(),
            speed_bits: 12.34f32.to_bits(),
            heading: 905,
            altitude: 120,
            satellites: 9,
        }),
        flowmeters: vec![
            Some(FlowmeterValues {
                volume_total: m("100.5", 100.5),
                density_flow: m("0.85", 0.85),
                temperature: m("25.1", 25.1),
                mass_flow_rate: m("3.2", 3.2),
            }),
            None,
        ],
        rpm_devices: vec![RpmDeviceInput {
            address: 4,
            total_channels: 2,
            engine_types: Some("main,aux".to_string()),
            channel_rpms: Some(vec![(1, 800), (2, 300)]),
        }],
        aio_devices: vec![],
    };
    let p = build_payload_at(&input, 5);
    assert_eq!(field(&p, "longitude"), Some("-6000000"));
    assert_eq!(field(&p, "heading"), Some("905"));
    assert_eq!(field(&p, "gpsNumSats"), Some("9"));
    assert_eq!(field(&p, "flowmeterVolumeTotal1"), Some("100.5"));
    assert_eq!(field(&p, "flowmeterVolumeTotal2"), Some("0"));
    assert_eq!(field(&p, "flowmeterFlowrate1"), Some("3.2"));
    assert_eq!(field(&p, "engineRPM1"), Some("800"));
    assert_eq!(field(&p, "engineRPM2"), None);
    assert_eq!(field(&p, "statusAE1"), Some("false"));
    assert_eq!(field(&p, "engineDurationAE1"), Some("0"));

    let engines = collect_engines(&input.rpm_devices);
    assert_eq!(engines.len(), 2);
    assert!(engines[0].is_running);
    assert!(!engines[1].is_running);
    assert_eq!(engines[1].engine_type, "aux");
    let (main, aux) = split_engines(&engines);
    assert_eq!(main.len(), 1);
    assert_eq!(aux.len(), 1);
}

#[test]
fn offline_rpm_sensor_gives_idle_main_engines() {
    let input = PayloadInput {
        gps: None,
        flowmeters: vec![],
        rpm_devices: vec![RpmDeviceInput { address: 4, total_channels: 3, engine_types: None, channel_rpms: None }],
        aio_devices: vec![],
    };
    let engines = collect_engines(&input.rpm_devices);
    assert_eq!(engines.len(), 3);
    assert!(engines.iter().all(|e| e.rpm == 0 && !e.is_running && e.engine_type == "main"));
}

#[test]
fn empty_report_frame() {
    let p = build_payload_hex_at(&empty_input(), 0x0102030405060708);
    assert!(p.fields.is_empty());
    let f = &p.raw_data;
    assert_eq!(f.len(), 114);
    assert_eq!(&f[..5], &[0xFF, 0xFF, 0x00, 0x80, 0x09]);
    assert_eq!(&f[5..14], b"ReportMsg");
    assert_eq!(f[14], 0);
    assert_eq!(&f[15..23], &[1, 2, 3, 4, 5, 6, 7, 8]);
    assert!(f[23..55].iter().all(|b| *b == 0));
    assert_eq!(&f[55..59], &8086u32.to_be_bytes());
    assert_eq!(f[71], 16);
    assert_eq!(&f[f.len() - 4..f.len() - 2], &[0x00, 0x01]);
    let crc = crc16_modbus(&f[..f.len() - 2]);
    assert_eq!(&f[f.len() - 2..], &crc.to_be_bytes());
}

#[test]
fn service_state() {
    let config = Config::default();
    let mut s = MtwsService::new(config);
    assert_eq!(s.get_endpoint_url(), "http://mtws.masihplayground.my.id:80/SubmitForm/123456789012345");
    assert_eq!(s.get_imei(), "123456789012345");
    assert_eq!(s.start_transmission(), Ok(()));
    assert_eq!(
        s.start_transmission(),
        Err(ModbusError::ServiceNotAvailable("MTWS transmission already running".to_string()))
    );
    assert_eq!(s.get_status().0, true);
    assert_eq!(s.stop_transmission(), Ok(()));
    assert_eq!(s.get_status().0, false);
    assert_eq!(s.get_status().1, 300);
    assert_eq!(
        s.set_transmission_interval(0),
        Err(ModbusError::InvalidData("Transmission interval must be at least 1 second".to_string()))
    );
    assert_eq!(s.set_transmission_interval(60), Ok(()));
    assert_eq!(s.get_status().1, 60);
    assert_eq!(s.check_enabled(), Ok(()));

    let mut off = Config::default();
    off.mtws.enabled = false;
    let mut s2 = MtwsService::new(off);
    assert_eq!(s2.start_transmission(), Err(ModbusError::ServiceNotAvailable("MTWS service is disabled".to_string())));
}

#[test]
fn http_outcome_and_messages() {
    assert_eq!(check_http_response(true, "200 OK", ""), Ok(()));
    assert_eq!(
        check_http_response(false, "500 Internal Server Error", "oops"),
        Err(ModbusError::CommunicationError("HTTP 500 Internal Server Error - oops".to_string()))
    );
    assert_eq!(sent_payload_message(22, "http://x/1"), "Sent MTWS payload with 22 fields to http://x/1");
}

#[test]
fn api_status_and_endpoint_choice() {
    assert_eq!(
        get_mtws_status(None).err(),
        Some(ModbusError::ServiceNotAvailable("MTWS service not available".to_string()))
    );
    let s = MtwsService::new(Config::default());
    let st = get_mtws_status(Some(&s)).unwrap();
    assert!(!st.is_running);
    assert_eq!(st.interval_seconds, 300);
    assert!(st.enabled);
    assert_eq!(st.endpoint_url, s.get_endpoint_url());
    let given = SendMtwsPayloadRequest { endpoint_url: Some("http://other/9".to_string()) };
    assert_eq!(given.endpoint_for(&s), "http://other/9");
    let none = SendMtwsPayloadRequest { endpoint_url: None };
    assert_eq!(none.endpoint_for(&s), s.get_endpoint_url());
}

#[test]
fn channel_zero_without_engine_types_is_a_main_engine() {
    let mut input = empty_input();
    input.rpm_devices = vec![RpmDeviceInput {
        address: 4,
        total_channels: 1,
        engine_types: None,
        channel_rpms: Some(vec![(0, 900)]),
    }];
    let engines = collect_engines(&input.rpm_devices);
    assert_eq!(engines.len(), 1);
    assert_eq!(engines[0].engine_type, "main");
    assert!(engines[0].is_running);
    let p = build_payload_at(&input, 5);
    assert_eq!(field(&p, "engineRPM1"), Some("900"));
    let h = build_payload_hex_at(&input, 5);
    let n = h.raw_data.len();
    assert_eq!(&h.raw_data[..2], &[0xFF, 0xFF]);
    assert_eq!(&h.raw_data[n - 4..n - 2], &[0x00, 0x01]);
}

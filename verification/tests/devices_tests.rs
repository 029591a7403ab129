use ipc_tracking::devices::aio_module::{AioChannelConfig, AioModuleDevice};
use ipc_tracking::devices::flowmeter::{FlowmeterDevice, FlowmeterRawPayload};
use ipc_tracking::devices::rpm::{register_count, RpmChannelData, RpmData, RpmDevice};
use ipc_tracking::utils::error::ModbusError;

fn be32(v: u32) -> [u8; 4] {
    v.to_be_bytes()
}

fn flowmeter_block() -> Vec<u8> {
    let mut d = Vec::new();
    d.extend_from_slice(&be32(0x0001_0007));
    d.extend_from_slice(&be32(12.5f32.to_bits()));
    d.extend_from_slice(&be32(998.0f32.to_bits()));
    d.extend_from_slice(&be32(25.25f32.to_bits()));
    d.extend_from_slice(&be32(1.5f32.to_bits()));
    d.extend_from_slice(&[0u8; 8]);
    d.extend_from_slice(&be32(100.0f32.to_bits()));
    d.extend_from_slice(&be32(200.0f32.to_bits()));
    d.extend_from_slice(&be32(3.0f32.to_bits()));
    d.extend_from_slice(&be32(4.0f32.to_bits()));
    d
}

#[test]
fn flowmeter_block_decodes_big_endian_floats() {
    let dev = FlowmeterDevice::new(2, "Inlet".to_string());
    assert_eq!(dev.start_register, 244);
    assert_eq!(dev.register_count, 22);
    let data = dev.parse_raw_data_at(&flowmeter_block(), 1700000000).unwrap();
    assert_eq!(data.device_address, 2);
    assert_eq!(data.timestamp, 1700000000);
    assert_eq!(f32::from_bits(data.mass_flow_rate), 12.5);
    assert_eq!(f32::from_bits(data.density_flow), 998.0);
    assert_eq!(f32::from_bits(data.temperature), 25.25);
    assert_eq!(f32::from_bits(data.volume_flow_rate), 1.5);
    assert_eq!(f32::from_bits(data.mass_total), 100.0);
    assert_eq!(f32::from_bits(data.volume_total), 200.0);
    assert_eq!(f32::from_bits(data.mass_inventory), 3.0);
    assert_eq!(f32::from_bits(data.volume_inventory), 4.0);
    assert_eq!(data.error_code, 7);
    assert_eq!(data.device_type(), "flowmeter");
    assert_eq!(dev.device_type(), "Flowmeter");
}

#[test]
fn flowmeter_short_block_is_refused() {
    let dev = FlowmeterDevice::new(2, "Inlet".to_string());
    assert_eq!(
        dev.parse_raw_data(&[0u8; 43]),
        Err(ModbusError::InvalidData("Insufficient data length".to_string()))
    );
}

#[test]
fn raw_payload_views() {
    let bytes = flowmeter_block();
    let p = FlowmeterRawPayload::new(2, bytes.clone(), 244, 22).unwrap();
    assert_eq!(p.payload_size, 44);
    assert_eq!(p.hex_string, bytes.iter().map(|b| format!("{:02x}", b)).collect::<String>());
    assert_eq!(p.error_code_raw, 0x0001_0007);
    assert_eq!(p.to_engineering_units().error_code, 7);
    assert_eq!(p.to_engineering_units().mass_flow_rate, 12.5f32.to_bits());
    assert_eq!(
        p.get_decoder_url(),
        format!("https://www.rapidtables.com/convert/number/hex-to-decimal.html?x={}", p.hex_string)
    );
    assert_eq!(p.to_string(), format!("FlowmeterRaw[2]: 44 bytes, Hex: {}...", &p.hex_string[..32]));
    let short = FlowmeterRawPayload::new(2, vec![1, 2, 3], 244, 22);
    assert_eq!(short.err(), Some(ModbusError::InvalidData("Insufficient raw data: 3 bytes".to_string())));
}

#[test]
fn raw_payload_encodings() {
    let mut bytes = vec![0xDEu8, 0xAD, 0xBE, 0xEF];
    bytes.resize(44, 0);
    let p = FlowmeterRawPayload::new(1, bytes, 244, 22).unwrap();
    assert!(p.hex_string.starts_with("deadbeef"));
    assert!(p.to_base64().starts_with("3q2+7w"));
    assert_eq!(p.to_base64().len(), 60);
    assert!(p.to_binary_string().starts_with("11011110 10101101 10111110 11101111 00000000"));
}

#[test]
fn rpm_channels_and_parameters() {
    let c = RpmChannelData::new(1, 500);
    assert_eq!(c.status, "Unknown");
    assert!(!c.is_engine_running());
    let mut d = RpmData::new_at(4, 2, vec![500], 1700000000);
    assert_eq!(d.channels.len(), 2);
    assert_eq!(d.channels[1].rpm_threshold, 500);
    d.channels[0].rpm_value = 800;
    d.channels[0].is_engine_running = true;
    assert_eq!(d.running_engine_count(), 1);
    assert_eq!(d.get_primary_channel().map(|c| c.channel_id), Some(1));
    assert_eq!(d.get_channel(2).map(|c| c.rpm_value), Some(0));
    assert!(d.get_channel(3).is_none());
    assert_eq!(d.get_parameter("RPM1", "0.0"), Some("800".to_string()));
    assert_eq!(d.get_parameter("RPM", "0.0"), Some("800".to_string()));
    assert_eq!(d.get_parameter("RPM3", "0.0"), None);
    assert_eq!(d.get_parameter("RunningEngines", "0.0"), Some("1".to_string()));
    assert_eq!(d.get_parameter("TotalEngineMinutes", "12.5"), Some("12.5".to_string()));
    assert_eq!(d.get_parameter("nonsense", "0.0"), None);
    assert_eq!(register_count(2), 8);
    assert_eq!(register_count(5), 17);
}

#[test]
fn rpm_block_decodes_per_channel_runs() {
    let dev = RpmDevice::with_config(6, "Main".to_string(), "Engine room".to_string(), 2, vec![600, 700]);
    assert_eq!(dev.total_channels(), 2);
    assert_eq!(dev.address(), 6);
    // rpm1 rpm2 freq1 freq2 pulse1 pulse2 status
    let data = [0x02, 0x58, 0x00, 0x64, 0x00, 0x0A, 0x00, 0x02, 0x00, 0x01, 0x00, 0x01, 0x00, 0x00, 0x00, 0x00];
    let r = dev.parse_raw_data_at(&data, 5).unwrap();
    assert_eq!(r.channels[0].rpm_value, 600);
    assert!(r.channels[0].is_engine_running);
    assert_eq!(r.channels[1].rpm_value, 100);
    assert!(!r.channels[1].is_engine_running);
    assert_eq!(r.channels[0].freq_value, 10);
    assert_eq!(r.channels[1].pulse_config, 1);
    assert_eq!(r.device_status, "OK");
    let short = dev.parse_raw_data_at(&data[..15], 5);
    assert_eq!(
        short.err(),
        Some(ModbusError::InvalidData(
            "Insufficient data length for 2 channel RPM parsing (need 16 bytes, got 15)".to_string()
        ))
    );
}

#[test]
fn rpm_outlier_filter_holds_spikes_until_confirmed() {
    let mut dev = RpmDevice::new(6, "Main".to_string());
    assert_eq!(dev.apply_outlier_detection(1, 1000), 1000);
    assert_eq!(dev.apply_outlier_detection(1, 1100), 1100);
    for _ in 0..15 {
        assert_eq!(dev.apply_outlier_detection(1, 3000), 1100);
    }
    assert_eq!(dev.apply_outlier_detection(1, 3000), 3000);
    assert_eq!(dev.apply_outlier_detection(1, 3050), 3050);
    assert_eq!(dev.apply_outlier_detection(2, 10), 10);
}

#[test]
fn aio_block_decodes_channels_and_inputs() {
    let dev = AioModuleDevice::new(9, "IO".to_string(), "Bridge".to_string(), 10, 1000).with_channels(vec![
        AioChannelConfig {
            channel_id: 1,
            channel_name: "Main".to_string(),
            channel_type: "rpm".to_string(),
            enabled: true,
        },
    ]);
    assert_eq!(dev.channels.len(), 1);
    let mut raw = vec![0u8; 78];
    raw[0] = 0x25;
    raw[1] = 0x80; // 9600 baud
    raw[2] = 0x00;
    raw[3] = 0x05; // pulse count, channel 1
    raw[28] = 0x01;
    raw[29] = 0x2C; // rpm, channel 2 (offset 26 + 2)
    raw[42] = 0x80;
    raw[43] = 0x01; // inputs 1 and 16
    raw[46] = 0x00;
    raw[47] = 0x00;
    raw[48] = 0x01;
    raw[49] = 0x00; // duration rpm, channel 1
    let d = dev.parse_raw_data_at(&raw, 77).unwrap();
    assert_eq!(d.baud_rate, 9600);
    assert_eq!(d.channels.len(), 4);
    assert_eq!(d.channels[0].pulse_count, 5);
    assert_eq!(d.channels[1].rpm_value, 300);
    assert_eq!(d.channels[0].duration_rpm, 256);
    assert_eq!(d.digital_inputs.len(), 16);
    assert!(d.digital_inputs[0]);
    assert!(d.digital_inputs[15]);
    assert!(!d.digital_inputs[1]);
    assert_eq!(d.get_parameter("baud_rate"), Some("9600".to_string()));
    assert_eq!(d.get_parameter("din1"), Some("true".to_string()));
    assert_eq!(d.get_parameter("din2"), Some("false".to_string()));
    assert_eq!(d.get_parameter("ch2_rpm"), Some("300".to_string()));
    assert_eq!(
        dev.parse_raw_data(&raw[..10]).err(),
        Some(ModbusError::InvalidData("AIO module response too short: expected 78 bytes, got 10".to_string()))
    );
}

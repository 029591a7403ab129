use ipc_tracking::modbus::crc::crc16_modbus;
use ipc_tracking::modbus::rtu::{
    append_crc, build_read_request, build_write_single_coil_request, check_coil_response,
    check_register_response, discrete_response_len, register_response_len, unpack_discrete_inputs,
    FN_READ_HOLDING_REGISTERS, FN_READ_INPUT_REGISTERS,
};
use ipc_tracking::utils::error::ModbusError;

#[test]
fn test_crc16_modbus() {
    let data = vec![0x01, 0x03, 0x00, 0xF4, 0x00, 0x16];
    let crc = crc16_modbus(&data);
    assert!(crc != 0);
}

#[test]
fn crc_of_known_frame() {
    assert_eq!(crc16_modbus(&[0x01, 0x03, 0x00, 0xF4, 0x00, 0x16]), 0xF685);
    assert_eq!(crc16_modbus(&[0x01, 0x03, 0x00, 0x00, 0x00, 0x01]), 0x0A84);
    assert_eq!(crc16_modbus(&[]), 0xFFFF);
}

#[test]
fn read_request_frame_carries_crc_low_byte_first() {
    let frame = build_read_request(1, FN_READ_HOLDING_REGISTERS, 0x00F4, 0x0016);
    assert_eq!(frame, vec![0x01, 0x03, 0x00, 0xF4, 0x00, 0x16, 0x85, 0xF6]);
}

#[test]
fn coil_request_encodes_on_as_ff00() {
    let on = build_write_single_coil_request(2, 2, true);
    assert_eq!(&on[..6], &[0x02, 0x05, 0x00, 0x02, 0xFF, 0x00]);
    let crc = crc16_modbus(&on[..6]);
    assert_eq!(on[6], (crc & 0xFF) as u8);
    assert_eq!(on[7], (crc >> 8) as u8);
    let off = build_write_single_coil_request(2, 2, false);
    assert_eq!(&off[..6], &[0x02, 0x05, 0x00, 0x02, 0x00, 0x00]);
}

#[test]
fn response_lengths() {
    assert_eq!(register_response_len(22), 49);
    assert_eq!(discrete_response_len(16), 7);
    assert_eq!(discrete_response_len(9), 7);
    assert_eq!(discrete_response_len(8), 6);
}

#[test]
fn register_response_round_trip() {
    let mut resp = vec![0x05, FN_READ_INPUT_REGISTERS, 0x04, 0x12, 0x34, 0x56, 0x78];
    append_crc(&mut resp);
    assert_eq!(check_register_response(&resp, 5, FN_READ_INPUT_REGISTERS), Ok(vec![0x12, 0x34, 0x56, 0x78]));
}

#[test]
fn register_response_refusals() {
    let mut resp = vec![0x05, 0x04, 0x02, 0x00, 0x01];
    append_crc(&mut resp);
    assert_eq!(check_register_response(&resp, 6, 0x04), Err(ModbusError::InvalidResponse));
    assert_eq!(check_register_response(&resp, 5, 0x03), Err(ModbusError::InvalidResponse));
    let last = resp.len() - 1;
    resp[last] ^= 0xFF;
    assert_eq!(check_register_response(&resp, 5, 0x04), Err(ModbusError::CrcError));
}

#[test]
fn coil_echo_checks() {
    let frame = build_write_single_coil_request(3, 1, true);
    assert_eq!(check_coil_response(&frame, 3), Ok(()));
    assert_eq!(check_coil_response(&frame, 4), Err(ModbusError::InvalidResponse));
    let mut bad = frame.clone();
    bad[7] ^= 1;
    assert_eq!(check_coil_response(&bad, 3), Err(ModbusError::InvalidResponse));
}

#[test]
fn discrete_inputs_unpack_lsb_first() {
    let bits = unpack_discrete_inputs(&[0b0000_0101, 0b0000_0001], 10);
    assert_eq!(bits, vec![true, false, true, false, false, false, false, false, true, false]);
    let few = unpack_discrete_inputs(&[0xFF], 3);
    assert_eq!(few, vec![true, true, true]);
    let capped = unpack_discrete_inputs(&[0x01], 20);
    assert_eq!(capped.len(), 8);
}

#[test]
fn error_messages() {
    assert_eq!(ModbusError::CrcError.message(), "CRC checksum mismatch");
    assert_eq!(ModbusError::InvalidDevice(7).message(), "Device not found: address 7");
    assert_eq!(ModbusError::ConfigError("x".to_string()).message(), "Configuration error: x");
}

#[test]
fn framed_request_folds_to_zero() {
    let frame = build_read_request(0x02, 0x03, 244, 22);
    assert_eq!(crc16_modbus(&frame), 0);
    let mut body = vec![0x01u8, 0x02, 0xFF, 0x80];
    let c = crc16_modbus(&body);
    body.push((c & 0xFF) as u8);
    body.push((c >> 8) as u8);
    assert_eq!(crc16_modbus(&body), 0);
}

use mks_servo42::{
    parse_en_pin_status_response, parse_encoder_response, parse_motor_shaft_angle_error,
    parse_motor_shaft_angle_response, parse_shaft_status_response, EnPinStatus, Error,
    ShaftErrValue, ShaftStatus,
};

#[test]
fn test_parse_encoder_response() {
    let data = [0xE0, 0x00, 0x00, 0x00, 0x00, 0x40, 0x00, 0x20];
    let res = parse_encoder_response(&data).unwrap();
    assert_eq!(res.carry, 0);
    assert_eq!(res.value, 0x4000);
}

#[test]
fn test_parse_encoder_response_with_prefix() {
    let data = [0xFF, 0xFE, 0xE0, 0x00, 0x00, 0x00, 0x00, 0x40, 0x00, 0x20];
    let res = parse_encoder_response(&data).unwrap();
    assert_eq!(res.carry, 0);
    assert_eq!(res.value, 0x4000);
}

#[test]
fn test_parse_encoder_response_invalid_checksum() {
    let data = [0xE0, 0x00, 0x00, 0x00, 0x00, 0x40, 0x00, 0x21];
    let res = parse_encoder_response(&data);
    assert!(matches!(res, Err(Error::InvalidPacket)));
}

#[test]
fn test_parse_motor_shaft_angle_error() {
    // Example from documentation: e0 00 B7 97 00 (error 1 degree)
    let data = [0xE0, 0x00, 0xB7, 0x97, 0x00];
    let error = parse_motor_shaft_angle_error(&data).unwrap();
    let shaft_error = ShaftErrValue { value: 183 };
    assert_eq!(error, shaft_error); // 183 encoder units, about 1 degree

    // Test with negative error (two's complement)
    // Example: e0 FF 4A 29 00 (error -182, about -1 degree)
    // Checksum: 0xE0 + 0xFF + 0x4A = 0x229 -> low byte 0x29
    let data = [0xE0, 0xFF, 0x4A, 0x29, 0x00];
    let error = parse_motor_shaft_angle_error(&data).unwrap();
    let shaft_error = ShaftErrValue { value: -182 };
    assert_eq!(error, shaft_error); // 0xFF4A = -182 encoder units

    // Test zero error
    // Checksum: 0xE0 + 0x00 + 0x00 = 0xE0
    let data = [0xE0, 0x00, 0x00, 0xE0, 0x00];
    let error = parse_motor_shaft_angle_error(&data).unwrap();
    let shaft_error = ShaftErrValue { value: 0 };
    assert_eq!(error, shaft_error);

    // Test maximum positive error (0x7FFF = 32767)
    // Checksum: 0xE0 + 0x7F + 0xFF = 0x25E -> low byte 0x5E
    let data = [0xE0, 0x7F, 0xFF, 0x5E, 0x00];
    let error = parse_motor_shaft_angle_error(&data).unwrap();
    let shaft_error = ShaftErrValue { value: 32767 };
    assert_eq!(error, shaft_error);
}

#[test]
fn test_parse_motor_shaft_angle_error_with_prefix() {
    // Test with garbage bytes before valid packet
    let data = [0xFF, 0xFE, 0xE0, 0x00, 0xB7, 0x97, 0x00];
    let error = parse_motor_shaft_angle_error(&data).unwrap();
    let shaft_error = ShaftErrValue { value: 183 };
    assert_eq!(error, shaft_error);
}

#[test]
fn test_parse_motor_shaft_angle_error_invalid_checksum() {
    // Wrong checksum
    let data = [0xE0, 0x00, 0xB7, 0x98, 0x00];
    let res = parse_motor_shaft_angle_error(&data);
    assert!(matches!(res, Err(Error::InvalidPacket)));
}

#[test]
fn test_parse_motor_shaft_angle_error_missing_trailing_zero() {
    // Missing trailing 0x00 byte
    let data = [0xE0, 0x00, 0xB7, 0x97, 0x01];
    let res = parse_motor_shaft_angle_error(&data);
    assert!(matches!(res, Err(Error::InvalidPacket)));
}

#[test]
fn test_parse_motor_shaft_angle_error_too_short() {
    // Packet too short
    let data = [0xE0, 0x00, 0xB7, 0x97];
    let res = parse_motor_shaft_angle_error(&data);
    assert!(matches!(res, Err(Error::InvalidPacket)));
}

#[test]
fn test_parse_motor_shaft_angle_error_invalid_address() {
    // Invalid address (outside E0-E9 range)
    let data = [0xDF, 0x00, 0xB7, 0x97, 0x00];
    let res = parse_motor_shaft_angle_error(&data);
    assert!(matches!(res, Err(Error::InvalidPacket)));
}

#[test]
fn test_parse_motor_shaft_angle_response() {
    // Example from documentation: e0 00 00 40 00 20 (angle 90 degrees)
    let data = [0xE0, 0x00, 0x00, 0x40, 0x00, 0x20];
    let angle = parse_motor_shaft_angle_response(&data).unwrap();
    assert_eq!(angle.value, 0x4000); // 16384 encoder units

    // Test zero angle
    // Checksum: 0xE0 + 0x00 + 0x00 + 0x00 + 0x00 = 0xE0
    let data = [0xE0, 0x00, 0x00, 0x00, 0x00, 0xE0];
    let angle = parse_motor_shaft_angle_response(&data).unwrap();
    assert_eq!(angle.value, 0);

    // Test 180 degree angle (32768 encoder units = 0x8000)
    // Checksum: 0xE0 + 0x00 + 0x00 + 0x80 + 0x00 = 0x160 -> low byte 0x60
    let data = [0xE0, 0x00, 0x00, 0x80, 0x00, 0x60];
    let angle = parse_motor_shaft_angle_response(&data).unwrap();
    assert_eq!(angle.value, 0x8000);

    // Test negative angle (two's complement)
    // -90 degrees = 65536 - 16384 = 49152 = 0xC000
    // Checksum: 0xE0 + 0xFF + 0xFF + 0xC0 + 0x00 = 0x39E -> low byte 0x9E
    let data = [0xE0, 0xFF, 0xFF, 0xC0, 0x00, 0x9E];
    let angle = parse_motor_shaft_angle_response(&data).unwrap();
    assert_eq!(angle.value, -16384); // -90 degrees in encoder units
}

#[test]
fn test_parse_motor_shaft_angle_response_with_prefix() {
    // Test with garbage bytes before valid packet
    let data = [0xFF, 0xFE, 0xE0, 0x00, 0x00, 0x40, 0x00, 0x20];
    let angle = parse_motor_shaft_angle_response(&data).unwrap();
    assert_eq!(angle.value, 0x4000);
}

#[test]
fn test_parse_motor_shaft_angle_response_invalid_checksum() {
    // Wrong checksum
    let data = [0xE0, 0x00, 0x00, 0x40, 0x00, 0x21];
    let res = parse_motor_shaft_angle_response(&data);
    assert!(matches!(res, Err(Error::InvalidPacket)));
}

#[test]
fn test_parse_motor_shaft_angle_response_too_short() {
    // Packet too short
    let data = [0xE0, 0x00, 0x00, 0x40, 0x00];
    let res = parse_motor_shaft_angle_response(&data);
    assert!(matches!(res, Err(Error::InvalidPacket)));
}

#[test]
fn test_parse_motor_shaft_angle_response_invalid_address() {
    // Invalid address (outside E0-E9 range)
    let data = [0xDF, 0x00, 0x00, 0x40, 0x00, 0x20];
    let res = parse_motor_shaft_angle_response(&data);
    assert!(matches!(res, Err(Error::InvalidPacket)));
}

#[test]
fn test_parse_en_pin_status_response() {
    // Example from documentation: e0 01 e1 (enable)
    let data = [0xE0, 0x01, 0xE1];
    let status = parse_en_pin_status_response(&data).unwrap();
    assert_eq!(status, EnPinStatus::Enabled);

    // Test disabled status
    // Checksum: 0xE0 + 0x02 = 0xE2
    let data = [0xE0, 0x02, 0xE2];
    let status = parse_en_pin_status_response(&data).unwrap();
    assert_eq!(status, EnPinStatus::Disabled);

    // Test error status
    // Checksum: 0xE0 + 0x00 = 0xE0
    let data = [0xE0, 0x00, 0xE0];
    let status = parse_en_pin_status_response(&data).unwrap();
    assert_eq!(status, EnPinStatus::Error);
}

#[test]
fn test_parse_en_pin_status_response_with_prefix() {
    // Test with garbage bytes before valid packet
    let data = [0xFF, 0xFE, 0xE0, 0x01, 0xE1];
    let status = parse_en_pin_status_response(&data).unwrap();
    assert_eq!(status, EnPinStatus::Enabled);
}

#[test]
fn test_parse_en_pin_status_response_invalid_checksum() {
    // Wrong checksum
    let data = [0xE0, 0x01, 0xE2];
    let res = parse_en_pin_status_response(&data);
    assert!(matches!(res, Err(Error::InvalidPacket)));
}

#[test]
fn test_parse_en_pin_status_response_invalid_status() {
    // Invalid status byte
    let data = [0xE0, 0x03, 0xE3];
    let res = parse_en_pin_status_response(&data);
    assert!(matches!(res, Err(Error::InvalidPacket)));
}

#[test]
fn test_parse_en_pin_status_response_too_short() {
    // Packet too short
    let data = [0xE0, 0x01];
    let res = parse_en_pin_status_response(&data);
    assert!(matches!(res, Err(Error::InvalidPacket)));
}

#[test]
fn test_parse_en_pin_status_response_invalid_address() {
    // Invalid address (outside E0-E9 range)
    let data = [0xDF, 0x01, 0xE0];
    let res = parse_en_pin_status_response(&data);
    assert!(matches!(res, Err(Error::InvalidPacket)));
}

#[test]
fn test_parse_shaft_status_response() {
    // Test Blocked
    // Checksum: 0xE0 + 0x01 = 0xE1
    let data = [0xE0, 0x01, 0xE1];
    let status = parse_shaft_status_response(&data).unwrap();
    assert_eq!(status, ShaftStatus::Blocked);

    // Test Unblocked
    // Checksum: 0xE0 + 0x02 = 0xE2
    let data = [0xE0, 0x02, 0xE2];
    let status = parse_shaft_status_response(&data).unwrap();
    assert_eq!(status, ShaftStatus::Unblocked);

    // Test Error
    // Checksum: 0xE0 + 0x00 = 0xE0
    let data = [0xE0, 0x00, 0xE0];
    let status = parse_shaft_status_response(&data).unwrap();
    assert_eq!(status, ShaftStatus::Error);
}

#[test]
fn test_parse_shaft_status_response_too_short() {
    // Packet too short (less than 3 bytes)
    let data = [0xE0, 0x01];
    let res = parse_shaft_status_response(&data);
    assert!(matches!(res, Err(Error::InvalidPacket)));

    // Empty packet
    let data: [u8; 0] = [];
    let res = parse_shaft_status_response(&data);
    assert!(matches!(res, Err(Error::InvalidPacket)));
}

#[test]
fn test_parse_shaft_status_response_invalid_checksum() {
    // Wrong checksum
    let data = [0xE0, 0x01, 0xE2];
    let res = parse_shaft_status_response(&data);
    assert!(matches!(res, Err(Error::InvalidPacket)));
}

#[test]
fn test_parse_shaft_status_response_invalid_address() {
    // Invalid address (outside E0-E9 range)
    let data = [0xDF, 0x01, 0xE0];
    let res = parse_shaft_status_response(&data);
    assert!(matches!(res, Err(Error::InvalidPacket)));
}

#[test]
fn test_parse_shaft_status_response_invalid_status() {
    // Invalid status byte (0x03 is not valid)
    // Checksum: 0xE0 + 0x03 = 0xE3
    let data = [0xE0, 0x03, 0xE3];
    let res = parse_shaft_status_response(&data);
    assert!(matches!(res, Err(Error::InvalidPacket)));
}

#[test]
fn test_parse_shaft_status_response_with_prefix() {
    // Test with garbage bytes before valid packet
    let data = [0xFF, 0xFE, 0xE0, 0x01, 0xE1];
    let status = parse_shaft_status_response(&data).unwrap();
    assert_eq!(status, ShaftStatus::Blocked);
}

use modbus_rtu::crc::{generate_modbus16, validate};
use modbus_rtu::error::ResponsePacketError;
use modbus_rtu::utils::{crc16_modbus, vec_bool_to_vec_u8};

#[test]
fn test_generate_modbus16_normal() {
    let bytes: [u8; 8] = [0x01, 0x06, 0x12, 0x34, 0x56, 0x78, 0x00, 0x00];
    let crc_bytes: u16 = generate_modbus16(&bytes[..6]);
    assert_eq!(crc_bytes, 0xFEF2);
}

#[test]
fn test_generate_modbus16_empty() {
    let bytes: [u8; 0] = [];
    let crc_bytes: u16 = generate_modbus16(&bytes);
    assert_eq!(crc_bytes, 0xFFFF);
}

#[test]
fn test_validate_ok() {
    let bytes: [u8; 8] = [0x01, 0x06, 0x12, 0x34, 0x56, 0x78, 0xF2, 0xFE];
    assert!(validate(&bytes).is_ok());
}

#[test]
fn test_validate_err() {
    let bytes: [u8; 8] = [0x01, 0x06, 0x12, 0x34, 0x56, 0x78, 0xF7, 0x2D];
    assert!(validate(&bytes).is_err());
}

#[test]
fn validate_reports_both_values() {
    let bytes: [u8; 8] = [0x01, 0x06, 0x12, 0x34, 0x56, 0x78, 0xF7, 0x2D];
    assert_eq!(
        validate(&bytes),
        Err(ResponsePacketError::CRCMismatch { expected: 0xFEF2, received: 0x2DF7 })
    );
}

#[test]
fn validate_rejects_every_single_bit_flip_of_the_crc() {
    let good: [u8; 8] = [0x01, 0x06, 0x12, 0x34, 0x56, 0x78, 0xF2, 0xFE];
    for i in 6..8 {
        for bit in 0..8 {
            let mut bad = good;
            bad[i] ^= 1 << bit;
            assert!(validate(&bad).is_err(), "byte {i} bit {bit}");
        }
    }
}

#[test]
fn validate_too_short_for_a_crc() {
    assert_eq!(validate(&[0x01]), Err(ResponsePacketError::TooShort(1)));
}

#[test]
fn crc_bytes_low_byte_first() {
    assert_eq!(crc16_modbus(&[0x01, 0x06, 0x12, 0x34, 0x56, 0x78]), [0xF2, 0xFE]);
    assert_eq!(crc16_modbus(&[]), [0xFF, 0xFF]);
}

#[test]
fn bools_pack_least_significant_first() {
    let bits = vec![true, false, true, true, false, false, true, true, true, false];
    assert_eq!(vec_bool_to_vec_u8(&bits), vec![0xCD, 0x01]);
    assert_eq!(vec_bool_to_vec_u8(&vec![]), Vec::<u8>::new());
    assert_eq!(vec_bool_to_vec_u8(&vec![true; 8]), vec![0xFF]);
}

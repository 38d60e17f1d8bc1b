use crsf::checksum::checksum;
use crsf::frame::{encode_frame, validate};

#[test]
fn checksum_empty_is_zero() {
    assert_eq!(checksum(&[]), 0x00);
}

#[test]
fn checksum_single_zero_is_zero() {
    assert_eq!(checksum(&[0x00]), 0x00);
}

#[test]
fn checksum_single_one_is_polynomial() {
    assert_eq!(checksum(&[0x01]), 0xD5);
}

#[test]
fn checksum_multi_byte_vectors() {
    assert_eq!(checksum(&[0x01, 0x02, 0x03]), 0x3F);
    assert_eq!(checksum(&[0xC8, 0x01, 0x02]), 0x3E);
    assert_eq!(checksum(&[0x1E, 0x03, 0xE8, 0xFE, 0x0C, 0x00, 0xFA]), 0x4F);
}

#[test]
fn checksum_is_deterministic() {
    let data = [0x1E, 0x03, 0xE8, 0xFE, 0x0C, 0x00, 0xFA];
    assert_eq!(checksum(&data), checksum(&data));
}

#[test]
fn validate_accepts_correct_checksum() {
    // [sync][len][type][payload][crc], crc over type + payload only.
    let frame = [0xC8, 0x04, 0x07, 0xFF, 0xF6, 0x5E];
    assert!(validate(&frame));
}

#[test]
fn validate_rejects_corrupted_checksum() {
    let frame = [0xC8, 0x04, 0x07, 0xFF, 0xF6, 0x5F];
    assert!(!validate(&frame));
}

#[test]
fn validate_rejects_corrupted_payload() {
    let frame = [0xC8, 0x04, 0x07, 0xFE, 0xF6, 0x5E];
    assert!(!validate(&frame));
}

#[test]
fn validate_rejects_short_input() {
    assert!(!validate(&[]));
    assert!(!validate(&[0xC8, 0x02, 0xFF]));
}

#[test]
fn encode_frame_produces_wire_format() {
    let frame = encode_frame(0x1E, &[0x03, 0xE8, 0xFE, 0x0C, 0x00, 0xFA]);
    assert_eq!(frame, vec![0xC8, 0x08, 0x1E, 0x03, 0xE8, 0xFE, 0x0C, 0x00, 0xFA, 0x4F]);
    assert!(validate(&frame));
}

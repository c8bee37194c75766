//! Tests of the response encoder's exact wire bytes.

use fanotify::response::{encode_response, Decision, FAN_ALLOW, FAN_DENY, RESPONSE_LEN};

#[test]
fn allow_response_encodes_descriptor_then_code() {
    let r = encode_response(5, Decision::Allow);
    assert_eq!(r, vec![5, 0, 0, 0, 1, 0, 0, 0]);
    assert_eq!(r.len(), RESPONSE_LEN);
}

#[test]
fn deny_response_encodes_descriptor_then_code() {
    let r = encode_response(5, Decision::Deny);
    assert_eq!(r, vec![5, 0, 0, 0, 2, 0, 0, 0]);
}

#[test]
fn decision_codes_match_the_wire_values() {
    assert_eq!(FAN_ALLOW, 0x01);
    assert_eq!(FAN_DENY, 0x02);
    let allow = encode_response(0, Decision::Allow);
    let deny = encode_response(0, Decision::Deny);
    assert_eq!(u32::from_le_bytes([allow[4], allow[5], allow[6], allow[7]]), FAN_ALLOW);
    assert_eq!(u32::from_le_bytes([deny[4], deny[5], deny[6], deny[7]]), FAN_DENY);
}

#[test]
fn wide_descriptor_encodes_little_endian() {
    let r = encode_response(0x0102_0304, Decision::Allow);
    assert_eq!(&r[..4], &[0x04, 0x03, 0x02, 0x01]);
}

#[test]
fn encoded_descriptor_reads_back_as_itself() {
    let fd = 123_456;
    let r = encode_response(fd, Decision::Deny);
    let back = i32::from_le_bytes([r[0], r[1], r[2], r[3]]);
    assert_eq!(back, fd);
}

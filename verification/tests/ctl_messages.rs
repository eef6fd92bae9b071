use filehost::ctl_messages::{
    decode_length, encode_health, encode_reload, is_health_reply, Opcode, OpcodeError,
    HEALTH_REPLY,
};

#[test]
fn opcode_zero_is_health_and_one_is_reload() {
    assert_eq!(Opcode::try_from(0u8), Ok(Opcode::Health));
    assert_eq!(Opcode::try_from(1u8), Ok(Opcode::Reload));
    assert_eq!(u8::from(Opcode::Health), 0);
    assert_eq!(u8::from(Opcode::Reload), 1);
}

#[test]
fn opcode_decoding_fails_on_every_other_byte_with_the_byte() {
    for raw in 2..=255u8 {
        assert_eq!(Opcode::try_from(raw), Err(OpcodeError::UnknownValue { raw }));
    }
}

#[test]
fn opcode_round_trips_through_its_byte() {
    for raw in 0..=255u8 {
        if let Ok(opcode) = Opcode::try_from(raw) {
            assert_eq!(u8::from(opcode), raw);
        }
    }
    for opcode in [Opcode::Health, Opcode::Reload] {
        assert_eq!(Opcode::try_from(u8::from(opcode)), Ok(opcode));
    }
}

#[test]
fn health_reply_is_the_byte_42() {
    assert_eq!(HEALTH_REPLY, [0x2A]);
}

#[test]
fn health_reply_is_recognised() {
    assert!(is_health_reply(&[0x2A]));
    assert!(is_health_reply(&HEALTH_REPLY));
    assert!(!is_health_reply(&[]));
    assert!(!is_health_reply(&[0x2B]));
    assert!(!is_health_reply(&[0x00]));
    assert!(!is_health_reply(&[0x2A, 0x2A]));
}

#[test]
fn length_is_read_high_byte_first() {
    assert_eq!(decode_length(&[0x00, 0x25]), Some(37));
    assert_eq!(decode_length(&[0x01, 0x02]), Some(258));
    assert_eq!(decode_length(&[0xFF, 0xFF]), Some(65535));
    assert_eq!(decode_length(&[0x00, 0x00]), Some(0));
    assert_eq!(decode_length(&[0x12, 0x34]), Some(0x1234));
}

#[test]
fn length_needs_exactly_two_bytes() {
    assert_eq!(decode_length(&[]), None);
    assert_eq!(decode_length(&[0x01]), None);
    assert_eq!(decode_length(&[0x00, 0x01, 0x02]), None);
}

#[test]
fn health_message_is_one_byte() {
    assert_eq!(encode_health(), vec![0x00]);
}

#[test]
fn reload_message_is_opcode_length_and_payload() {
    assert_eq!(encode_reload(b"abc"), Some(vec![0x01, 0x00, 0x03, b'a', b'b', b'c']));
    assert_eq!(encode_reload(b""), Some(vec![0x01, 0x00, 0x00]));
    let payload = vec![7u8; 300];
    let frame = encode_reload(&payload).unwrap();
    assert_eq!(&frame[..3], &[0x01, 0x01, 0x2C]);
    assert_eq!(&frame[3..], &payload[..]);
    assert_eq!(decode_length(&frame[1..3]), Some(300));
}

#[test]
fn reload_message_has_a_longest_payload() {
    let longest = vec![0u8; 65535];
    let frame = encode_reload(&longest).unwrap();
    assert_eq!(frame.len(), 65538);
    assert_eq!(&frame[..3], &[0x01, 0xFF, 0xFF]);
    let too_long = vec![0u8; 65536];
    assert_eq!(encode_reload(&too_long), None);
}

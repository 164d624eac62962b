use limb_controller::codec::{decode, encode_ack, CodecError, Command, MAX_CONTROL_SIGNAL_SIZE};

#[test]
fn decode_empty_is_too_short() {
    assert_eq!(decode(&[]), Err(CodecError::TooShort));
}

#[test]
fn decode_short_set_angles_is_too_short() {
    assert_eq!(decode(&[0, 0, 90, 0, 45]), Err(CodecError::TooShort));
    assert_eq!(decode(&[0, 0, 90, 0, 45, 0, 180, 0, 0, 0]), Err(CodecError::TooShort));
}

#[test]
fn decode_unknown_kind() {
    assert_eq!(decode(&[7]), Err(CodecError::UnknownKind(7)));
    assert_eq!(decode(&[3, 0, 0]), Err(CodecError::UnknownKind(3)));
    assert_eq!(decode(&[255; 11]), Err(CodecError::UnknownKind(255)));
}

#[test]
fn decode_set_angles_big_endian() {
    let b = [0, 0, 90, 0, 45, 0, 180, 0, 0, 0, 90];
    assert_eq!(b.len(), MAX_CONTROL_SIGNAL_SIZE);
    assert_eq!(decode(&b), Ok(Command::SetAngles([90, 45, 180, 0, 90])));
    let wide = [0, 1, 2, 0xff, 0xff, 0x12, 0x34, 0, 0, 0x80, 0];
    assert_eq!(decode(&wide), Ok(Command::SetAngles([258, 65535, 0x1234, 0, 0x8000])));
}

#[test]
fn decode_ignores_trailing_bytes() {
    let b = [0, 0, 1, 0, 2, 0, 3, 0, 4, 0, 5, 9, 9];
    assert_eq!(decode(&b), Ok(Command::SetAngles([1, 2, 3, 4, 5])));
}

#[test]
fn decode_ping_and_config() {
    assert_eq!(decode(&[1]), Ok(Command::Ping));
    assert_eq!(decode(&[1, 5, 6]), Ok(Command::Ping));
    assert_eq!(decode(&[2]), Ok(Command::Config));
}

#[test]
fn encode_ack_little_endian() {
    assert_eq!(encode_ack(&[90, 45, 180, 0, 90]), vec![90, 0, 45, 0, 180, 0, 0, 0, 90, 0]);
    assert_eq!(
        encode_ack(&[258, 65535, 0x1234, 0, 0x8000]),
        vec![2, 1, 0xff, 0xff, 0x34, 0x12, 0, 0, 0, 0x80]
    );
}

#[test]
fn ack_round_trips_command_values() {
    let b = [0, 0x01, 0x02, 0xab, 0xcd, 0, 7, 0xff, 0, 0x10, 0x01];
    let angles = match decode(&b) {
        Ok(Command::SetAngles(a)) => a,
        other => panic!("unexpected {:?}", other),
    };
    let ack = encode_ack(&angles);
    let back: Vec<u16> = ack.chunks(2).map(|p| u16::from_le_bytes([p[0], p[1]])).collect();
    assert_eq!(back, angles.to_vec());
    assert_eq!(back, vec![0x0102, 0xabcd, 7, 0xff00, 0x1001]);
}

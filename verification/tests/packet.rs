use fvm::network::packet::{Packet, PacketError, PacketType, CHECKSUM_SIZE};

#[test]
fn validate_checksum_size() {
    assert_eq!(CHECKSUM_SIZE, 2);
}

#[test]
fn create_empty_packet_as_bytes() {
    let p = Packet::encode(PacketType::NoneType, &[]);

    assert_eq!(p, vec![0xAD, 0x01, 0x00, 0xFF, 0x00, 0x02, 81, 253]);
}

#[test]
fn decode_empty_packet() {
    let p = Packet::decode_packet(&[0xAD, 0x01, 0x00, 0xFF, 0x00, 0x02, 81, 253]).unwrap();
    assert_eq!(p.get_p_type(), PacketType::NoneType);
    assert_eq!(p.get_data(), &[] as &[u8]);
}

#[test]
fn checksum_of_empty_candidate() {
    let c = Packet::calculate_checksum(&[0xAD, 0x01, 0x00, 0xFF, 0x00, 0x02, 0x00, 0x00]);
    assert_eq!(c, 0x51FD);
}

#[test]
fn checksum_is_deterministic() {
    let data = [0x01u8, 0x02, 0x03, 0x04, 0xA3, 0x17, 0xDC, 0x0A];
    assert_eq!(
        Packet::calculate_checksum(&data),
        Packet::calculate_checksum(&data)
    );
}

#[test]
fn checksum_of_odd_length_input() {
    // The final lone byte counts as the high half of a word
    let even = Packet::calculate_checksum(&[0xAB, 0x00]);
    let odd = Packet::calculate_checksum(&[0xAB]);
    assert_eq!(even, odd);
}

#[test]
fn round_trip_even_payload() {
    let payload = [0x01u8, 0x02, 0x03, 0x04, 0xA3, 0x17, 0xDC, 0x0A];
    let wire = Packet::encode(PacketType::NoneType, &payload);
    assert_eq!(wire.len(), payload.len() + 8);
    let p = Packet::decode_packet(&wire).unwrap();
    assert_eq!(p.get_p_type(), PacketType::NoneType);
    assert_eq!(p.get_data(), &payload);
}

#[test]
fn round_trip_odd_payload() {
    let payload = [5u8];
    let wire = Packet::encode(PacketType::NoneType, &payload);
    let p = Packet::decode_packet(&wire).unwrap();
    assert_eq!(p.get_data(), &payload);
}

#[test]
fn round_trip_large_payload() {
    let payload: Vec<u8> = (0..1000u32).map(|i| (i % 251) as u8).collect();
    let wire = Packet::encode(PacketType::NoneType, &payload);
    let p = Packet::decode_packet(&wire).unwrap();
    assert_eq!(p.get_data(), payload.as_slice());
}

#[test]
fn decode_too_short() {
    assert_eq!(
        Packet::decode_packet(&[0xAD, 0x01, 0x00]).unwrap_err(),
        PacketError::TooShort(3)
    );
}

#[test]
fn decode_wrong_magic() {
    // The magic byte is altered, everything else is a valid packet
    assert_eq!(
        Packet::decode_packet(&[0xAD, 0x02, 0x00, 0xFF, 0x00, 0x02, 0x51, 0xFD]).unwrap_err(),
        PacketError::NotThisProtocol
    );
}

#[test]
fn decode_wrong_version() {
    assert_eq!(
        Packet::decode_packet(&[0xAD, 0x01, 0x07, 0xFF, 0x00, 0x02, 0x51, 0xFD]).unwrap_err(),
        PacketError::UnsupportedVersion(0x07)
    );
}

#[test]
fn decode_unknown_payload_type() {
    assert_eq!(
        Packet::decode_packet(&[0xAD, 0x01, 0x00, 0x42, 0x00, 0x02, 0x51, 0xFD]).unwrap_err(),
        PacketError::InvalidPayloadType(0x42)
    );
}

#[test]
fn decode_trailing_byte() {
    // One extra byte after a valid buffer: the length field says 8 in all
    assert_eq!(
        Packet::decode_packet(&[0xAD, 0x01, 0x00, 0xFF, 0x00, 0x02, 0x51, 0xFD, 0x99]).unwrap_err(),
        PacketError::LengthMismatch(8, 9)
    );
}

#[test]
fn decode_corrupted_checksum() {
    let r = Packet::decode_packet(&[0xAD, 0x01, 0x00, 0xFF, 0x00, 0x02, 0x51, 0xFE]);
    assert_eq!(r.unwrap_err(), PacketError::ChecksumMismatch(0x51FE, 0x51FD));
}

#[test]
fn bit_flip_in_payload_is_detected() {
    let payload = [0x10u8, 0x20, 0x30];
    let mut wire = Packet::encode(PacketType::NoneType, &payload);
    wire[7] ^= 0x04;
    assert!(matches!(
        Packet::decode_packet(&wire),
        Err(PacketError::ChecksumMismatch(_, _))
    ));
}

#[test]
fn bit_flip_in_length_is_detected() {
    let payload = [0x10u8, 0x20, 0x30];
    let mut wire = Packet::encode(PacketType::NoneType, &payload);
    wire[5] ^= 0x01;
    assert!(matches!(
        Packet::decode_packet(&wire),
        Err(PacketError::LengthMismatch(_, _))
    ));
}

#[test]
fn truncated_buffer_is_rejected() {
    let payload = [0x10u8, 0x20, 0x30, 0x40];
    let wire = Packet::encode(PacketType::NoneType, &payload);
    // Shorter than a header and checksum
    assert_eq!(
        Packet::decode_packet(&wire[..5]).unwrap_err(),
        PacketError::TooShort(5)
    );
    // Long enough for the header, but shorter than the length field says
    assert_eq!(
        Packet::decode_packet(&wire[..9]).unwrap_err(),
        PacketError::LengthMismatch(12, 9)
    );
}

#[test]
fn registry_round_trip() {
    let v = PacketType::NoneType.to_wire_value();
    assert_eq!(v, 0xFF);
    assert_eq!(PacketType::from_wire_value(v).unwrap(), PacketType::NoneType);
    assert_eq!(
        PacketType::from_wire_value(0x00).unwrap_err(),
        PacketError::InvalidPayloadType(0x00)
    );
}

#[test]
fn from_data_keeps_fields() {
    let p = Packet::from_data(PacketType::NoneType, vec![1, 2, 3]);
    assert_eq!(p.get_p_type(), PacketType::NoneType);
    assert_eq!(p.get_data(), &[1, 2, 3]);
}

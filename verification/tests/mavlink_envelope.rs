use uf_crsf::packets::CrsfPacket;
use uf_crsf::packets::MavlinkEnvelope;
use uf_crsf::CrsfParsingError;


#[test]
fn test_mavlink_envelope_to_bytes() {
    let data = [1, 2, 3, 4];
    let packet = MavlinkEnvelope::new(5, 2, &data).unwrap();

    let mut buffer = [0u8; 6];
    let len = packet.to_bytes(&mut buffer).unwrap();

    assert_eq!(len, 6);
    // total_chunks: 5 (0b0101), current_chunk: 2 (0b0010) -> 0b01010010 = 0x52
    // data_size: 4
    assert_eq!(buffer, [0x52, 4, 1, 2, 3, 4]);
}

#[test]
fn test_mavlink_envelope_from_bytes() {
    let data: [u8; 6] = [0x52, 4, 1, 2, 3, 4];
    let packet = MavlinkEnvelope::from_bytes(&data).unwrap();

    let expected_data = [1, 2, 3, 4];
    assert_eq!(packet.total_chunks, 5);
    assert_eq!(packet.current_chunk, 2);
    assert_eq!(packet.data(), &expected_data);
}

#[test]
fn test_mavlink_envelope_round_trip() {
    let data = [0xFE, 0xED, 0xBE, 0xEF];
    let packet = MavlinkEnvelope::new(10, 9, &data).unwrap();

    let mut buffer = [0u8; 60];
    let len = packet.to_bytes(&mut buffer).unwrap();
    let round_trip_packet = MavlinkEnvelope::from_bytes(&buffer[..len]).unwrap();

    assert_eq!(packet, round_trip_packet);
}

#[test]
fn test_empty_data() {
    let packet = MavlinkEnvelope::new(1, 0, &[]).unwrap();

    let mut buffer = [0u8; 2];
    let len = packet.to_bytes(&mut buffer).unwrap();
    assert_eq!(len, 2);
    // total_chunks: 1 (0b0001), current_chunk: 0 (0b0000) -> 0b00010000 = 0x10
    assert_eq!(buffer, [0x10, 0]);

    let round_trip_packet = MavlinkEnvelope::from_bytes(&buffer).unwrap();
    assert_eq!(packet, round_trip_packet);
}

#[test]
fn test_max_data() {
    let payload = [0xAB; 58];
    let packet = MavlinkEnvelope::new(15, 15, &payload).unwrap();

    let mut buffer = [0u8; 60];
    let len = packet.to_bytes(&mut buffer).unwrap();
    assert_eq!(len, 60);

    // total_chunks: 15 (0b1111), current_chunk: 15 (0b1111) -> 0b11111111 = 0xFF
    assert_eq!(buffer[0], 0xFF);
    assert_eq!(buffer[1], 58);
    assert_eq!(&buffer[2..], payload);

    let round_trip_packet = MavlinkEnvelope::from_bytes(&buffer).unwrap();
    assert_eq!(packet, round_trip_packet);
}

#[test]
fn mavlink_envelope_test_from_bytes_invalid_len() {
    let data: [u8; 1] = [0x10];
    let result = MavlinkEnvelope::from_bytes(&data);
    assert!(matches!(
        result,
        Err(CrsfParsingError::InvalidPayloadLength)
    ));

    let data: [u8; 5] = [0x10, 4, 1, 2, 3]; // data_size is 4, but only 3 bytes provided
    let result = MavlinkEnvelope::from_bytes(&data);
    assert!(matches!(
        result,
        Err(CrsfParsingError::InvalidPayloadLength)
    ));
}

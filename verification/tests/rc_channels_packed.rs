use uf_crsf::packets::CrsfPacket;
use uf_crsf::packets::{write_packet_to_buffer, PacketAddress, RcChannelsPacked};
use uf_crsf::CrsfParsingError;


#[test]
fn test_rc_channels_from_hardware_bytes() {
    // This is the existing test, renamed
    let payload: [u8; 22] = [
        0x03, 0x1F, 0x58, 0xC0, 0x07, 0x16, 0xB0, 0x80, 0x05, 0x2C, 0x60, 0x01, 0x0B, 0xF8,
        0xC0, 0x07, 0x00, 0x00, 0x00, 0x00, 0x00, 252,
    ];
    let rc = RcChannelsPacked::from_bytes(&payload).unwrap();
    let mut buffer: [u8; 22] = [0; 22];
    let consumed = rc.to_bytes(&mut buffer).unwrap();
    assert_eq!(consumed, 22);
    assert_eq!(&buffer, &payload);
}

#[test]
fn test_rc_channels_packed_round_trip() {
    let channels = RcChannelsPacked([
        1000, 1001, 1002, 1003, 1500, 1501, 1502, 1503, 2000, 2001, 2002, 2003, 992, 100, 500,
        1900,
    ]);

    let mut buffer: [u8; 22] = [0; 22];
    channels.to_bytes(&mut buffer).unwrap();

    let parsed_channels = RcChannelsPacked::from_bytes(&buffer).unwrap();
    assert_eq!(channels, parsed_channels);
}

#[test]
fn rc_channels_packed_test_from_bytes_invalid_len() {
    let raw_bytes: [u8; 21] = [0; 21];
    let result = RcChannelsPacked::from_bytes(&raw_bytes);
    assert!(matches!(
        result,
        Err(CrsfParsingError::InvalidPayloadLength)
    ));
}

#[test]
fn rc_channels_packed_test_to_bytes_buffer_too_small() {
    let channels = RcChannelsPacked([0; 16]);
    let mut buffer: [u8; 21] = [0; 21];
    let result = channels.to_bytes(&mut buffer);
    assert!(matches!(result, Err(CrsfParsingError::BufferOverflow)));
}

#[test]
fn test_rc_channels_from_bytes() {
    assert_eq!(RcChannelsPacked::MIN_PAYLOAD_SIZE, 22);
    let channels = RcChannelsPacked([
        1000, 1001, 1002, 1003, 1500, 1501, 1502, 1503, 2000, 2001, 2002, 2003, 992, 100, 500,
        1900,
    ]);
    let mut buffer = [0u8; 64];
    let len = write_packet_to_buffer(&mut buffer, PacketAddress::Broadcast, &channels).unwrap();
    let payload = &buffer[3..len - 1];
    let parsed_channels = RcChannelsPacked::from_bytes(payload).unwrap();
    assert_eq!(channels, parsed_channels);
}

#[test]
fn test_rc_channels_to_bytes() {
    let channels = RcChannelsPacked([
        1000, 1001, 1002, 1003, 1500, 1501, 1502, 1503, 2000, 2001, 2002, 2003, 992, 100, 500,
        1900,
    ]);

    let mut buffer = [0u8; 22];
    let len = channels.to_bytes(&mut buffer).unwrap();

    let mut expected_buffer = [0u8; 64];
    let expected_len =
        write_packet_to_buffer(&mut expected_buffer, PacketAddress::Broadcast, &channels)
            .unwrap();
    let expected_payload = &expected_buffer[3..expected_len - 1];

    assert_eq!(len, 22);
    assert_eq!(buffer, expected_payload);
}

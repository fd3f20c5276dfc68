use uf_crsf::packets::CrsfPacket;
use uf_crsf::packets::Logging;
use uf_crsf::CrsfParsingError;


#[test]
fn test_logging_from_bytes_no_params() {
    assert_eq!(Logging::MIN_PAYLOAD_SIZE, 8);
    let data: [u8; 8] = [
        0xEA, 0xEE, // dst_addr, src_addr
        0x01, 0x02, // logtype
        0x03, 0x04, 0x05, 0x06, // timestamp
    ];
    let packet = Logging::from_bytes(&data).unwrap();
    assert_eq!(packet.dst_addr, 0xEA);
    assert_eq!(packet.src_addr, 0xEE);
    assert_eq!(packet.logtype, 0x0102);
    assert_eq!(packet.timestamp, 0x03040506);
    assert!(packet.params().is_empty());
}

#[test]
fn test_logging_from_bytes_with_params() {
    let data: [u8; 16] = [
        0xEA, 0xEE, // dst_addr, src_addr
        0x01, 0x02, // logtype
        0x03, 0x04, 0x05, 0x06, // timestamp
        0x07, 0x08, 0x09, 0x0A, // param1
        0x0B, 0x0C, 0x0D, 0x0E, // param2
    ];
    let packet = Logging::from_bytes(&data).unwrap();
    assert_eq!(packet.dst_addr, 0xEA);
    assert_eq!(packet.src_addr, 0xEE);
    assert_eq!(packet.logtype, 0x0102);
    assert_eq!(packet.timestamp, 0x03040506);
    assert_eq!(packet.params(), &[0x0708090A, 0x0B0C0D0E]);
}

#[test]
fn test_logging_to_bytes_no_params() {
    let packet = Logging::new(0xEA, 0xEE, 0x1234, 0x56789ABC, &[]).unwrap();
    let mut buffer = [0u8; 8];
    let len = packet.to_bytes(&mut buffer).unwrap();
    assert_eq!(len, 8);
    let expected: [u8; 8] = [0xEA, 0xEE, 0x12, 0x34, 0x56, 0x78, 0x9A, 0xBC];
    assert_eq!(buffer, expected);
}

#[test]
fn test_logging_to_bytes_with_params() {
    let params = [0x11223344, 0x55667788];
    let packet = Logging::new(0xEA, 0xEE, 0xABCD, 0xDEADBEEF, &params).unwrap();
    let mut buffer = [0u8; 16];
    let len = packet.to_bytes(&mut buffer).unwrap();
    assert_eq!(len, 16);
    let expected: [u8; 16] = [
        0xEA, 0xEE, // dst_addr, src_addr
        0xAB, 0xCD, // logtype
        0xDE, 0xAD, 0xBE, 0xEF, // timestamp
        0x11, 0x22, 0x33, 0x44, // param1
        0x55, 0x66, 0x77, 0x88, // param2
    ];
    assert_eq!(buffer, expected);
}

#[test]
fn test_logging_round_trip() {
    let params = [1, 2, 3];
    let packet = Logging::new(0xEA, 0xEE, 123, 456, &params).unwrap();
    let mut buffer = [0u8; 20];
    let len = packet.to_bytes(&mut buffer).unwrap();
    assert_eq!(len, 20);
    let round_trip = Logging::from_bytes(&buffer[..len]).unwrap();
    assert_eq!(packet, round_trip);
}

#[test]
fn test_invalid_payload_length_too_short() {
    let data = [0u8; 7];
    assert_eq!(
        Logging::from_bytes(&data),
        Err(CrsfParsingError::InvalidPayloadLength)
    );
}

#[test]
fn test_invalid_payload_length_not_multiple_of_4() {
    let data = [0u8; 9];
    assert_eq!(
        Logging::from_bytes(&data),
        Err(CrsfParsingError::InvalidPayloadLength)
    );
}

use uf_crsf::packets::CrsfPacket;
use uf_crsf::packets::Attitude;
use uf_crsf::CrsfParsingError;


#[test]
fn test_attitude_from_bytes() {
    assert_eq!(Attitude::MIN_PAYLOAD_SIZE, 6);
    let data: [u8; 6] = [0x01, 0x02, 0x03, 0x04, 0x05, 0x06];
    let packet = Attitude::from_bytes(&data).unwrap();
    assert_eq!(packet.pitch, 0x0102);
    assert_eq!(packet.roll, 0x0304);
    assert_eq!(packet.yaw, 0x0506);
}

#[test]
fn test_attitude_to_bytes() {
    let packet = Attitude {
        pitch: -1000,
        roll: 1000,
        yaw: 31415,
    };
    let mut buffer = [0u8; 6];
    let len = packet.to_bytes(&mut buffer).unwrap();
    assert_eq!(len, 6);
    let expected: [u8; 6] = [0xFC, 0x18, 0x03, 0xE8, 0x7A, 0xB7];
    assert_eq!(buffer, expected);
}

#[test]
fn test_attitude_round_trip() {
    let packet = Attitude {
        pitch: 123,
        roll: -456,
        yaw: 789,
    };
    let mut buffer = [0u8; 6];
    packet.to_bytes(&mut buffer).unwrap();
    let round_trip = Attitude::from_bytes(&buffer).unwrap();
    assert_eq!(packet, round_trip);
}

#[test]
fn test_attitude_from_bytes_too_small() {
    let data: [u8; 5] = [0; 5];
    let result = Attitude::from_bytes(&data);
    assert_eq!(result, Err(CrsfParsingError::InvalidPayloadLength));
}

#[test]
fn test_attitude_to_bytes_too_small() {
    let packet = Attitude {
        pitch: 1,
        roll: 2,
        yaw: 3,
    };
    let mut buffer = [0u8; 5];
    let result = packet.to_bytes(&mut buffer);
    assert_eq!(result, Err(CrsfParsingError::BufferOverflow));
}

use uf_crsf::packets::CrsfPacket;
use uf_crsf::packets::AirSpeed;
use uf_crsf::CrsfParsingError;


#[test]
fn test_airspeed_to_bytes() {
    assert_eq!(AirSpeed::MIN_PAYLOAD_SIZE, 2);
    let airspeed = AirSpeed { speed: 1234 };
    let mut buffer = [0u8; AirSpeed::MIN_PAYLOAD_SIZE];
    let _ = airspeed.to_bytes(&mut buffer);
    assert_eq!(buffer, [0x04, 0xD2]);
}

#[test]
fn test_airspeed_from_bytes() {
    let data: [u8; AirSpeed::MIN_PAYLOAD_SIZE] = [0x04, 0xD2];
    let airspeed = AirSpeed::from_bytes(&data).unwrap();
    assert_eq!(airspeed.speed, 1234);
}

#[test]
fn test_airspeed_round_trip() {
    let airspeed = AirSpeed { speed: 5678 };
    let mut buffer = [0u8; AirSpeed::MIN_PAYLOAD_SIZE];
    let _ = airspeed.to_bytes(&mut buffer);
    let round_trip_airspeed = AirSpeed::from_bytes(&buffer).unwrap();
    assert_eq!(airspeed, round_trip_airspeed);
}

#[test]
fn test_airspeed_to_bytes_buffer_too_small() {
    let airspeed = AirSpeed { speed: 1234 };
    let mut buffer = [0u8; 1];
    let result = airspeed.to_bytes(&mut buffer);
    assert_eq!(result, Err(CrsfParsingError::BufferOverflow));
}

#[test]
fn test_airspeed_from_bytes_invalide_size() {
    let data: [u8; 1] = [0x04];
    let result = AirSpeed::from_bytes(&data);
    assert_eq!(result, Err(CrsfParsingError::InvalidPayloadLength));
}

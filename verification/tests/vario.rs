use uf_crsf::packets::CrsfPacket;
use uf_crsf::packets::VariometerSensor;
use uf_crsf::CrsfParsingError;


#[test]
fn test_vario_from_bytes() {
    assert_eq!(VariometerSensor::MIN_PAYLOAD_SIZE, 2);
    let data: [u8; 2] = [0x01, 0x02];
    let packet = VariometerSensor::from_bytes(&data).unwrap();
    assert_eq!(packet.v_speed, 0x0102);
}

#[test]
fn test_vario_to_bytes() {
    let packet = VariometerSensor { v_speed: -1000 };
    let mut buffer = [0u8; 2];
    let len = packet.to_bytes(&mut buffer).unwrap();
    assert_eq!(len, 2);
    let expected: [u8; 2] = [0xFC, 0x18];
    assert_eq!(buffer, expected);
}

#[test]
fn test_vario_round_trip() {
    let packet = VariometerSensor { v_speed: 1234 };
    let mut buffer = [0u8; 2];
    packet.to_bytes(&mut buffer).unwrap();
    let round_trip = VariometerSensor::from_bytes(&buffer).unwrap();
    assert_eq!(packet, round_trip);
}

#[test]
fn test_vario_from_bytes_too_small() {
    let data: [u8; 1] = [0; 1];
    let result = VariometerSensor::from_bytes(&data);
    assert_eq!(result, Err(CrsfParsingError::InvalidPayloadLength));
}

#[test]
fn test_vario_to_bytes_too_small() {
    let packet = VariometerSensor { v_speed: 1 };
    let mut buffer = [0u8; 1];
    let result = packet.to_bytes(&mut buffer);
    assert_eq!(result, Err(CrsfParsingError::BufferOverflow));
}

use uf_crsf::packets::CrsfPacket;
use uf_crsf::packets::FlightMode;
use uf_crsf::CrsfParsingError;


#[test]
fn test_flight_mode_to_bytes() {
    let flight_mode = FlightMode::new("ACRO").unwrap();

    let mut buffer = [0u8; 60];
    let len = flight_mode.to_bytes(&mut buffer).unwrap();

    let expected_bytes: [u8; 5] = [b'A', b'C', b'R', b'O', 0];

    assert_eq!(len, 5);
    assert_eq!(&buffer[..len], &expected_bytes);
}

#[test]
fn test_flight_mode_to_bytes_buffer_too_small() {
    let flight_mode = FlightMode::new("LONG FLIGHT MODE").unwrap();

    let mut buffer = [0u8; 10];
    let result = flight_mode.to_bytes(&mut buffer);
    assert!(matches!(result, Err(CrsfParsingError::BufferOverflow)));
}

#[test]
fn test_flight_node_from_bytes_too_small() {
    let data: [u8; 0] = [];
    let result = FlightMode::from_bytes(&data);
    assert_eq!(result.unwrap().flight_mode(), "");
}

#[test]
fn test_flight_mode_from_bytes() {
    let data: [u8; 5] = [b'A', b'C', b'R', b'O', 0];
    let flight_mode = FlightMode::from_bytes(&data).unwrap();

    assert_eq!(flight_mode.flight_mode(), "ACRO");
}

#[test]
fn test_flight_mode_from_bytes_no_null() {
    let data: [u8; 4] = [b'A', b'C', b'R', b'O'];
    let flight_mode = FlightMode::from_bytes(&data).unwrap();

    assert_eq!(flight_mode.flight_mode(), "ACRO");
}

#[test]
fn test_flight_mode_round_trip() {
    let flight_mode = FlightMode::new("STABILIZE").unwrap();

    let mut buffer = [0u8; 60];
    let len = flight_mode.to_bytes(&mut buffer).unwrap();

    let round_trip_flight_mode = FlightMode::from_bytes(&buffer[..len]).unwrap();

    assert_eq!(flight_mode, round_trip_flight_mode);
}

#[test]
fn test_empty_flight_mode() {
    let flight_mode = FlightMode::new("").unwrap();

    let mut buffer = [0u8; 60];
    let len = flight_mode.to_bytes(&mut buffer).unwrap();
    let round_trip_flight_mode = FlightMode::from_bytes(&buffer[..len]).unwrap();
    assert_eq!(flight_mode, round_trip_flight_mode);
    assert_eq!(len, 1);
    assert_eq!(buffer[0], 0);
}

#[test]
fn test_flight_mode_from_bytes_invalid_utf8() {
    // 0xFF can never begin a UTF-8 sequence.
    let data: [u8; 3] = [0xFF, 0xFE, 0x00];
    let result = FlightMode::from_bytes(&data);
    assert_eq!(result, Err(CrsfParsingError::InvalidPayload));
}

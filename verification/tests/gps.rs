use uf_crsf::packets::CrsfPacket;
use uf_crsf::packets::{write_packet_to_buffer, Gps, PacketAddress};
use uf_crsf::CrsfParsingError;


#[test]
fn test_gps_from_bytes() {
    let gps = Gps {
        latitude: 124108701,
        longitude: -276434195,
        groundspeed: 26,
        heading: 3500,
        altitude: 1050,
        satellites: 15,
    };
    let mut buffer = [0u8; 64];
    let len = write_packet_to_buffer(&mut buffer, PacketAddress::Broadcast, &gps).unwrap();
    let payload = &buffer[3..len - 1];
    let parsed_gps = Gps::from_bytes(payload).unwrap();
    assert_eq!(gps, parsed_gps);
}

#[test]
fn test_gps_to_bytes() {
    let gps = Gps {
        latitude: 124108701,
        longitude: -276434195,
        groundspeed: 26,
        heading: 3500,
        altitude: 1050,
        satellites: 15,
    };

    let mut buffer = [0u8; 15];
    let len = gps.to_bytes(&mut buffer).unwrap();

    let mut expected_buffer = [0u8; 64];
    let expected_len =
        write_packet_to_buffer(&mut expected_buffer, PacketAddress::Broadcast, &gps).unwrap();
    let expected_payload = &expected_buffer[3..expected_len - 1];

    assert_eq!(len, 15);
    assert_eq!(buffer, expected_payload);
}

#[test]
fn test_gps_round_trip() {
    let gps = Gps {
        latitude: 525200000,  // Example: 52.52 degrees
        longitude: 134050000, // Example: 13.405 degrees
        groundspeed: 5000,    // 50.00 km/h
        heading: 18000,       // 180.00 degrees
        altitude: 1100,       // 100m
        satellites: 12,
    };

    let mut buffer: [u8; 15] = [0; 15];
    gps.to_bytes(&mut buffer).unwrap();

    let parsed_gps = Gps::from_bytes(&buffer).unwrap();
    assert_eq!(gps, parsed_gps);
}

#[test]
fn gps_test_from_bytes_invalid_len() {
    let raw_bytes: [u8; 14] = [0; 14];
    let result = Gps::from_bytes(&raw_bytes);
    assert!(matches!(result, Err(CrsfParsingError::InvalidPayloadLength)));
}

#[test]
fn gps_test_to_bytes_buffer_too_small() {
    let gps = Gps {
        latitude: 0,
        longitude: 0,
        groundspeed: 0,
        heading: 0,
        altitude: 0,
        satellites: 0,
    };
    let mut buffer: [u8; 14] = [0; 14];
    let result = gps.to_bytes(&mut buffer);
    assert!(matches!(result, Err(CrsfParsingError::BufferOverflow)));
}

#[test]
fn test_gps_from_hardware_bytes() {
    // Raw packet from hardware: [234, 17, 2, 0, 0, 0, 0, 0, 0, 0, 0, 0, 0, 0, 0, 3, 235, 0, 26]
    // Payload is the 15 bytes after the type.
    let payload: [u8; 15] = [0, 0, 0, 0, 0, 0, 0, 0, 0, 0, 0, 0, 3, 235, 0];
    let gps = Gps::from_bytes(&payload).unwrap();

    assert_eq!(gps.latitude, 0);
    assert_eq!(gps.longitude, 0);
    assert_eq!(gps.groundspeed, 0);
    assert_eq!(gps.heading, 0);
    assert_eq!(gps.altitude, 1003);
    assert_eq!(gps.satellites, 0);

    // Test round-trip
    let mut buffer: [u8; 15] = [0; 15];
    gps.to_bytes(&mut buffer).unwrap();
    assert_eq!(buffer, payload);
    let parsed_gps = Gps::from_bytes(&buffer).unwrap();
    assert_eq!(gps, parsed_gps);
}

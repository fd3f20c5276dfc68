use uf_crsf::packets::CrsfPacket;
use uf_crsf::packets::GpsTime;
use uf_crsf::CrsfParsingError;


#[test]
fn test_gps_time_to_bytes() {
    assert_eq!(GpsTime::MIN_PAYLOAD_SIZE, 9);
    let gps_time = GpsTime {
        year: 2024,
        month: 10,
        day: 27,
        hour: 12,
        minute: 34,
        second: 56,
        millisecond: 789,
    };

    let mut buffer = [0u8; GpsTime::MIN_PAYLOAD_SIZE];
    gps_time.to_bytes(&mut buffer).unwrap();

    let expected_bytes: [u8; GpsTime::MIN_PAYLOAD_SIZE] =
        [0x07, 0xe8, 0x0a, 0x1b, 0x0c, 0x22, 0x38, 0x03, 0x15];

    assert_eq!(buffer, expected_bytes);
}

#[test]
fn test_gps_time_from_bytes() {
    let data: [u8; GpsTime::MIN_PAYLOAD_SIZE] =
        [0x07, 0xe8, 0x0a, 0x1b, 0x0c, 0x22, 0x38, 0x03, 0x15];

    let gps_time = GpsTime::from_bytes(&data).unwrap();

    assert_eq!(
        gps_time,
        GpsTime {
            year: 2024,
            month: 10,
            day: 27,
            hour: 12,
            minute: 34,
            second: 56,
            millisecond: 789,
        }
    );
}

#[test]
fn test_gps_time_round_trip() {
    let gps_time = GpsTime {
        year: 2024,
        month: 10,
        day: 27,
        hour: 12,
        minute: 34,
        second: 56,
        millisecond: 789,
    };

    let mut buffer = [0u8; GpsTime::MIN_PAYLOAD_SIZE];
    gps_time.to_bytes(&mut buffer).unwrap();

    let round_trip_gps_time = GpsTime::from_bytes(&buffer).unwrap();

    assert_eq!(gps_time, round_trip_gps_time);
}

#[test]
fn gps_time_test_edge_cases() {
    let gps_time = GpsTime {
        year: -1,
        month: 1,
        day: 1,
        hour: 0,
        minute: 0,
        second: 0,
        millisecond: 65535,
    };

    let mut buffer = [0u8; GpsTime::MIN_PAYLOAD_SIZE];
    gps_time.to_bytes(&mut buffer).unwrap();
    let round_trip_gps_time = GpsTime::from_bytes(&buffer).unwrap();
    assert_eq!(gps_time, round_trip_gps_time);
}

#[test]
fn gps_time_test_to_bytes_buffer_too_small() {
    let gps_time = GpsTime {
        year: -1,
        month: 1,
        day: 1,
        hour: 0,
        minute: 0,
        second: 0,
        millisecond: 65535,
    };
    let mut buffer: [u8; 8] = [0; 8];
    let result = gps_time.to_bytes(&mut buffer);
    assert!(matches!(result, Err(CrsfParsingError::BufferOverflow)));
}

#[test]
fn test_from_bytes_too_small() {
    let data: [u8; 8] = [0; 8];
    let result = GpsTime::from_bytes(&data);
    assert_eq!(result, Err(CrsfParsingError::InvalidPayloadLength));
}

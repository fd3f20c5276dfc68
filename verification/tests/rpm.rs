use uf_crsf::packets::CrsfPacket;
use uf_crsf::packets::Rpm;


#[test]
fn test_rpm_to_bytes() {
    let rpm_values = [1000, -2000];
    let rpm = Rpm::new(1, &rpm_values).unwrap();

    let mut buffer = [0u8; 60];
    let len = rpm.to_bytes(&mut buffer).unwrap();

    let expected_bytes: [u8; 7] = [
        1, // Source ID
        0x00, 0x03, 0xe8, // 1000
        0xff, 0xf8, 0x30, // -2000
    ];

    assert_eq!(len, 7);
    assert_eq!(&buffer[..len], &expected_bytes);
}

#[test]
fn test_rpm_from_bytes() {
    let data: [u8; 7] = [
        1, // Source ID
        0x00, 0x03, 0xe8, // 1000
        0xff, 0xf8, 0x30, // -2000
    ];

    let rpm = Rpm::from_bytes(&data).unwrap();

    let expected_rpm_values = [1000, -2000];
    assert_eq!(rpm.rpm_source_id, 1);
    assert_eq!(rpm.rpm_values(), &expected_rpm_values);
}

#[test]
fn test_rpm_round_trip() {
    let rpm_values = [123456, -654321];
    let rpm = Rpm::new(2, &rpm_values).unwrap();

    let mut buffer = [0u8; 60];
    let len = rpm.to_bytes(&mut buffer).unwrap();

    let round_trip_rpm = Rpm::from_bytes(&buffer[..len]).unwrap();

    assert_eq!(rpm, round_trip_rpm);
}

#[test]
fn rpm_test_edge_cases() {
    let rpm_values = [0, 8388607, -8388608];
    let rpm = Rpm::new(3, &rpm_values).unwrap();

    let mut buffer = [0u8; 60];
    let len = rpm.to_bytes(&mut buffer).unwrap();
    let round_trip_rpm = Rpm::from_bytes(&buffer[..len]).unwrap();
    assert_eq!(rpm, round_trip_rpm);
}

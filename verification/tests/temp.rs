use uf_crsf::packets::CrsfPacket;
use uf_crsf::packets::Temp;


#[test]
fn test_temp_to_bytes() {
    let temperatures = [250, -50];
    let temp = Temp::new(1, &temperatures).unwrap();

    let mut buffer = [0u8; 60];
    let len = temp.to_bytes(&mut buffer).unwrap();

    let expected_bytes: [u8; 5] = [
        1, // Source ID
        0x00, 0xfa, // 250
        0xff, 0xce, // -50
    ];

    assert_eq!(len, 5);
    assert_eq!(&buffer[..len], &expected_bytes);
}

#[test]
fn test_temp_from_bytes() {
    let data: [u8; 5] = [
        1, // Source ID
        0x00, 0xfa, // 250
        0xff, 0xce, // -50
    ];

    let temp = Temp::from_bytes(&data).unwrap();

    let expected_temperatures = [250, -50];
    assert_eq!(temp.temp_source_id, 1);
    assert_eq!(temp.temperatures(), &expected_temperatures);
}

#[test]
fn test_temp_round_trip() {
    let temperatures = [1234, -5678];
    let temp = Temp::new(2, &temperatures).unwrap();

    let mut buffer = [0u8; 60];
    let len = temp.to_bytes(&mut buffer).unwrap();

    let round_trip_temp = Temp::from_bytes(&buffer[..len]).unwrap();

    assert_eq!(temp, round_trip_temp);
}

#[test]
fn temp_test_edge_cases() {
    let temperatures = [0, 32767, -32768];
    let temp = Temp::new(3, &temperatures).unwrap();

    let mut buffer = [0u8; 60];
    let len = temp.to_bytes(&mut buffer).unwrap();
    let round_trip_temp = Temp::from_bytes(&buffer[..len]).unwrap();
    assert_eq!(temp, round_trip_temp);
}

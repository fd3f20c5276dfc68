use uf_crsf::packets::CrsfPacket;
use uf_crsf::packets::Voltages;


#[test]
fn test_voltages_to_bytes() {
    let voltage_values = [3850, 3900];
    let voltages = Voltages::new(0, &voltage_values).unwrap();

    let mut buffer = [0u8; 60];
    let len = voltages.to_bytes(&mut buffer).unwrap();

    let expected_bytes: [u8; 5] = [
        0, // Source ID
        0x0f, 0x0a, // 3850
        0x0f, 0x3c, // 3900
    ];

    assert_eq!(len, 5);
    assert_eq!(&buffer[..len], &expected_bytes);
}

#[test]
fn test_voltages_from_bytes() {
    let data: [u8; 5] = [
        0, // Source ID
        0x0f, 0x0a, // 3850
        0x0f, 0x3c, // 3900
    ];

    let voltages = Voltages::from_bytes(&data).unwrap();

    let expected_voltage_values = [3850, 3900];
    assert_eq!(voltages.voltage_source_id, 0);
    assert_eq!(voltages.voltage_values(), &expected_voltage_values);
}

#[test]
fn test_voltages_round_trip() {
    let voltage_values = [3700, 3800];
    let voltages = Voltages::new(1, &voltage_values).unwrap();

    let mut buffer = [0u8; 60];
    let len = voltages.to_bytes(&mut buffer).unwrap();

    let round_trip_voltages = Voltages::from_bytes(&buffer[..len]).unwrap();

    assert_eq!(voltages, round_trip_voltages);
}

#[test]
fn voltages_test_edge_cases() {
    let voltage_values = [0, 65535];
    let voltages = Voltages::new(2, &voltage_values).unwrap();

    let mut buffer = [0u8; 29 * 2 + 1];
    let len = voltages.to_bytes(&mut buffer).unwrap();
    let round_trip_voltages = Voltages::from_bytes(&buffer[..len]).unwrap();
    assert_eq!(voltages, round_trip_voltages);
}

use uf_crsf::packets::CrsfPacket;
use uf_crsf::packets::VtxTelemetry;


#[test]
fn test_vtx_telemetry_to_bytes() {
    let vtx_telemetry = VtxTelemetry {
        origin_address: 0xEE,
        power_dbm: 25,
        frequency_mhz: 5800,
        pit_mode: true,
        pitmode_control: 2,
        pitmode_switch: 5,
    };

    let mut buffer = [0u8; VtxTelemetry::MIN_PAYLOAD_SIZE];
    vtx_telemetry.to_bytes(&mut buffer).unwrap();

    // pit_byte = 1 | (2 << 1) | (5 << 3) = 1 | 4 | 40 = 45 = 0b00101101
    let expected_bytes: [u8; VtxTelemetry::MIN_PAYLOAD_SIZE] =
        [0xEE, 25, 0x16, 0xA8, 0b00101101];

    assert_eq!(buffer, expected_bytes);
}

#[test]
fn test_vtx_telemetry_from_bytes() {
    let data: [u8; VtxTelemetry::MIN_PAYLOAD_SIZE] = [0xEE, 25, 0x16, 0xA8, 0b00101101];

    let vtx_telemetry = VtxTelemetry::from_bytes(&data).unwrap();

    assert_eq!(
        vtx_telemetry,
        VtxTelemetry {
            origin_address: 0xEE,
            power_dbm: 25,
            frequency_mhz: 5800,
            pit_mode: true,
            pitmode_control: 2,
            pitmode_switch: 5,
        }
    );
}

#[test]
fn test_vtx_telemetry_round_trip() {
    let vtx_telemetry = VtxTelemetry {
        origin_address: 0xCE,
        power_dbm: 10,
        frequency_mhz: 5740,
        pit_mode: false,
        pitmode_control: 1,
        pitmode_switch: 10,
    };

    let mut buffer = [0u8; VtxTelemetry::MIN_PAYLOAD_SIZE];
    vtx_telemetry.to_bytes(&mut buffer).unwrap();

    let round_trip_vtx_telemetry = VtxTelemetry::from_bytes(&buffer).unwrap();

    assert_eq!(vtx_telemetry, round_trip_vtx_telemetry);
}

use uf_crsf::packets::CrsfPacket;
use uf_crsf::packets::Heartbeat;


#[test]
fn test_heatbeat_to_bytes() {
    let heatbeat = Heartbeat {
        origin_address: 1234,
    };
    let mut buffer = [0u8; Heartbeat::MIN_PAYLOAD_SIZE];
    heatbeat.to_bytes(&mut buffer).unwrap();
    assert_eq!(buffer, [0x04, 0xD2]);
}

#[test]
fn test_heatbeat_from_bytes() {
    let data: [u8; Heartbeat::MIN_PAYLOAD_SIZE] = [0x04, 0xD2];
    let heatbeat = Heartbeat::from_bytes(&data).unwrap();
    assert_eq!(heatbeat.origin_address, 1234);
}

#[test]
fn test_heatbeat_round_trip() {
    let heatbeat = Heartbeat {
        origin_address: 5678,
    };
    let mut buffer = [0u8; Heartbeat::MIN_PAYLOAD_SIZE];
    heatbeat.to_bytes(&mut buffer).unwrap();
    let round_trip_heatbeat = Heartbeat::from_bytes(&buffer).unwrap();
    assert_eq!(heatbeat, round_trip_heatbeat);
}

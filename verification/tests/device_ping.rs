use uf_crsf::packets::CrsfPacket;
use uf_crsf::packets::DevicePing;


#[test]
fn test_parameter_ping_to_bytes() {
    let ping = DevicePing {
        dst_addr: 0xEA,
        src_addr: 0xEE,
    };
    let mut buffer = [0u8; 2];
    let len = ping.to_bytes(&mut buffer).unwrap();
    assert_eq!(len, 2);
    assert_eq!(buffer, [0xEA, 0xEE]);
}

#[test]
fn test_parameter_ping_from_bytes() {
    let data: [u8; 2] = [0xEA, 0xEE];
    let ping = DevicePing::from_bytes(&data).unwrap();
    assert_eq!(
        ping,
        DevicePing {
            dst_addr: 0xEA,
            src_addr: 0xEE
        }
    );
}

#[test]
fn test_parameter_ping_from_bytes_with_payload() {
    // Should ignore extra payload
    let data: [u8; 5] = [0xEA, 0xEE, 3, 4, 5];
    let ping = DevicePing::from_bytes(&data).unwrap();
    assert_eq!(
        ping,
        DevicePing {
            dst_addr: 0xEA,
            src_addr: 0xEE
        }
    );
}

use uf_crsf::packets::{
    write_packet_to_buffer, CrsfPacket, LinkStatistics, Packet, PacketAddress, PacketType,
    RcChannelsPacked,
};
use uf_crsf::parser::CrsfParser;
use uf_crsf::CrsfStreamError;

#[test]
fn test_construction() {
    let raw_bytes: [u8; 14] = [0xC8, 12, 0x14, 16, 19, 99, 151, 1, 2, 3, 8, 88, 148, 252];
    let mut parser = CrsfParser::new();

    for b in &raw_bytes[0..raw_bytes.len() - 1] {
        let result = parser.push_byte_raw(*b);
        assert!(matches!(result, Ok(None)));
    }

    let raw_packet_result = parser.push_byte_raw(raw_bytes[13]);
    let raw_packet = raw_packet_result
        .expect("Failed to get raw packet result")
        .expect("Expected a complete raw packet, but got None");

    assert_eq!(raw_packet.len(), raw_bytes.len());

    assert_eq!(raw_packet.payload().len(), LinkStatistics::MIN_PAYLOAD_SIZE);
    assert_eq!(
        raw_packet.raw_packet_type(),
        PacketType::LinkStatistics.to_u8()
    );

    let data = raw_packet.payload();
    let ls = LinkStatistics::from_bytes(data).unwrap();
    let p = Packet::parse(&raw_packet).unwrap();
    assert_eq!(Packet::LinkStatistics(ls.clone()), p);

    assert_eq!(ls.uplink_rssi_1, 16);
}

#[test]
fn test_parsing() {
    let raw_bytes: [u8; 40] = [
        0xC8, 12, 0x14, 16, 19, 99, 151, 1, 2, 3, 8, 88, 148, 252, 0xC8, 24, 0x16, 0xE0, 0x03,
        0x1F, 0x58, 0xC0, 0x07, 0x16, 0xB0, 0x80, 0x05, 0x2C, 0x60, 0x01, 0x0B, 0xF8, 0xC0, 0x07,
        0x00, 0x00, 0x00, 0x00, 0x00, 103,
    ];
    let mut parser = CrsfParser::new();
    let mut it = parser.iter_packets(&raw_bytes);
    let mut results: Vec<Result<Packet, CrsfStreamError>> = Vec::new();
    while let Some(r) = it.next() {
        results.push(r);
    }

    let expected = [
        992, 992, 352, 992, 352, 352, 352, 352, 352, 352, 992, 992, 0, 0, 0, 0,
    ];
    assert_eq!(results.len(), 2);

    assert!(results[0].is_ok());
    assert!(results[1].is_ok());
    assert_eq!(
        Packet::RCChannels(RcChannelsPacked(expected)),
        results[1].clone().ok().unwrap()
    );
}

#[test]
fn test_raw_to_full_packet_conversion() {
    let link_stats_packet = LinkStatistics {
        uplink_rssi_1: 16,
        uplink_rssi_2: 19,
        uplink_link_quality: 99,
        uplink_snr: 51 as i8,
        active_antenna: 1,
        rf_mode: 2,
        uplink_tx_power: 3,
        downlink_rssi: 8,
        downlink_link_quality: 88,
        downlink_snr: 48 as i8,
    };

    // Serialize it into a buffer
    let mut buffer = [0u8; 64];
    let bytes_written = write_packet_to_buffer(
        &mut buffer,
        PacketAddress::FlightController,
        &link_stats_packet,
    )
    .unwrap();
    let raw_bytes = &buffer[..bytes_written];

    let mut parser = CrsfParser::new();

    // 1. Parse raw bytes to get a RawCrsfPacket
    let mut last = None;
    for &byte in raw_bytes {
        let r = parser.push_byte_raw(byte);
        match r {
            Ok(Some(p)) => {
                last = Some(Packet::parse(&p).expect("Failed to parse raw packet into a Packet"));
                break;
            }
            Ok(None) => (),
            Err(_) => panic!("Failed to get raw packet result"),
        }
    }
    let packet = last.expect("Expected a complete raw packet, but got None");

    // Verify the resulting packet
    assert!(matches!(packet, Packet::LinkStatistics(_)));
    if let Packet::LinkStatistics(stats) = packet {
        assert_eq!(stats, link_stats_packet)
    }
}

#[test]
fn test_corrupted_crc_yields_invalid_crc() {
    // The same link statistics frame with its CRC byte corrupted must
    // give exactly one CRC error and no packet.
    let raw_bytes: [u8; 14] = [0xC8, 12, 0x14, 16, 19, 99, 151, 1, 2, 3, 8, 88, 148, 253];
    let mut parser = CrsfParser::new();
    let mut it = parser.iter_packets(&raw_bytes);
    let mut errors = 0;
    let mut packets = 0;
    while let Some(r) = it.next() {
        match r {
            Ok(_) => packets += 1,
            Err(CrsfStreamError::InvalidCrc {
                calculated_crc,
                packet_crc,
            }) => {
                assert_eq!(calculated_crc, 252);
                assert_eq!(packet_crc, 253);
                errors += 1;
            }
            Err(e) => panic!("unexpected error {:?}", e),
        }
    }
    assert_eq!(errors, 1);
    assert_eq!(packets, 0);
}

#[test]
fn test_invalid_sync_byte_reported() {
    let mut parser = CrsfParser::new();
    // 0x01 is not a member of the address set.
    let r = parser.push_byte_raw(0x01);
    assert!(matches!(r, Err(CrsfStreamError::InvalidSync(0x01))));
    // The machine accepts a fresh frame right after.
    let raw_bytes: [u8; 14] = [0xC8, 12, 0x14, 16, 19, 99, 151, 1, 2, 3, 8, 88, 148, 252];
    for b in &raw_bytes[0..13] {
        assert!(matches!(parser.push_byte_raw(*b), Ok(None)));
    }
    assert!(matches!(parser.push_byte_raw(raw_bytes[13]), Ok(Some(_))));
}

#[test]
fn test_invalid_packet_length_reported() {
    let mut parser = CrsfParser::new();
    assert!(matches!(parser.push_byte_raw(0xC8), Ok(None)));
    // Length byte 62 would make a 64-byte frame, one over the maximum.
    let r = parser.push_byte_raw(62);
    assert!(matches!(r, Err(CrsfStreamError::InvalidPacketLength(62))));
}

#[test]
fn test_unknown_type_yields_unexpected_packet_type() {
    // A well-framed packet whose type byte 0x01 names no packet kind.
    let frame = build_frame(0xC8, 0x01, &[0xAB, 0xCD]);
    let mut parser = CrsfParser::new();
    let mut last = None;
    for &b in &frame {
        last = Some(parser.push_byte(b));
    }
    assert!(matches!(
        last,
        Some(Err(CrsfStreamError::ParsingError(
            uf_crsf::CrsfParsingError::UnexpectedPacketType(0x01)
        )))
    ));
}

fn build_frame(addr: u8, type_byte: u8, payload: &[u8]) -> Vec<u8> {
    let mut crc: u8 = 0;
    let mut digest = |b: u8| {
        crc ^= b;
        for _ in 0..8 {
            crc = if crc & 0x80 != 0 {
                (crc << 1) ^ 0xD5
            } else {
                crc << 1
            };
        }
    };
    digest(type_byte);
    for &b in payload {
        digest(b);
    }
    let mut frame = vec![addr, (payload.len() + 2) as u8, type_byte];
    frame.extend_from_slice(payload);
    frame.push(crc);
    frame
}

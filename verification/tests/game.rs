use uf_crsf::packets::CrsfPacket;
use uf_crsf::packets::{Game, GamePayload};
use uf_crsf::CrsfParsingError;


#[test]
fn test_add_points_from_bytes() {
    let data: [u8; 5] = [0xEA, 0xEE, 0x01, 0x00, 0x64]; // 100 points
    let packet = Game::from_bytes(&data).unwrap();
    assert_eq!(packet.dst_addr, 0xEA);
    assert_eq!(packet.src_addr, 0xEE);
    assert!(matches!(packet.payload, GamePayload::AddPoints(points) if points ==  100));
}

#[test]
fn test_add_points_to_bytes() {
    let packet = Game {
        dst_addr: 0xEA,
        src_addr: 0xEE,
        payload: GamePayload::AddPoints(100),
    };
    let mut buffer = [0u8; 5];
    let len = packet.to_bytes(&mut buffer).unwrap();
    assert_eq!(len, 5);
    let expected: [u8; 5] = [0xEA, 0xEE, 0x01, 0x00, 0x64];
    assert_eq!(buffer, expected);
}

#[test]
fn test_command_code_from_bytes() {
    let data: [u8; 5] = [0xC8, 0xEC, 0x02, 0x12, 0x34]; // code 0x1234
    let packet = Game::from_bytes(&data).unwrap();
    assert_eq!(packet.dst_addr, 0xC8);
    assert_eq!(packet.src_addr, 0xEC);
    assert!(matches!(packet.payload, GamePayload::CommandCode(code) if code ==  0x1234));
}

#[test]
fn test_command_code_to_bytes() {
    let packet = Game {
        dst_addr: 0xC8,
        src_addr: 0xEC,
        payload: GamePayload::CommandCode(0x1234),
    };
    let mut buffer = [0u8; 5];
    let len = packet.to_bytes(&mut buffer).unwrap();
    assert_eq!(len, 5);
    let expected: [u8; 5] = [0xC8, 0xEC, 0x02, 0x12, 0x34];
    assert_eq!(buffer, expected);
}

#[test]
fn test_game_round_trip() {
    let packet = Game {
        dst_addr: 0xC8,
        src_addr: 0xEC,
        payload: GamePayload::AddPoints(-50),
    };
    let mut buffer = [0u8; 5];
    packet.to_bytes(&mut buffer).unwrap();
    let round_trip = Game::from_bytes(&buffer).unwrap();
    assert_eq!(packet, round_trip);
}

#[test]
fn test_game_from_bytes_too_small() {
    let data: [u8; 4] = [0; 4];
    let result = Game::from_bytes(&data);
    assert_eq!(result, Err(CrsfParsingError::InvalidPayloadLength));
}

#[test]
fn test_game_to_bytes_too_small() {
    let packet = Game {
        dst_addr: 0xC8,
        src_addr: 0xEC,
        payload: GamePayload::AddPoints(-50),
    };
    let mut buffer = [0u8; 4];
    let result = packet.to_bytes(&mut buffer);
    assert_eq!(result, Err(CrsfParsingError::BufferOverflow));
}

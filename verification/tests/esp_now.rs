use uf_crsf::packets::CrsfPacket;
use uf_crsf::packets::EspNow;
use uf_crsf::CrsfParsingError;


#[test]
fn test_esp_now_to_bytes() {
    assert_eq!(EspNow::MIN_PAYLOAD_SIZE, 52);
    let esp_now = EspNow {
        val1: 10,
        val2: 20,
        val3: [65u8; 15],
        val4: [66u8; 15],
        free_text: [67u8; 20],
    };

    let mut buffer = [0u8; EspNow::MIN_PAYLOAD_SIZE];
    let _ = esp_now.to_bytes(&mut buffer);

    let mut expected_bytes = [0u8; EspNow::MIN_PAYLOAD_SIZE];
    expected_bytes[0] = 10;
    expected_bytes[1] = 20;
    expected_bytes[2..17].copy_from_slice(&[65u8; 15]);
    expected_bytes[17..32].copy_from_slice(&[66u8; 15]);
    expected_bytes[32..52].copy_from_slice(&[67u8; 20]);

    assert_eq!(buffer, expected_bytes);
}

#[test]
fn test_esp_now_from_bytes() {
    let mut data = [0u8; EspNow::MIN_PAYLOAD_SIZE];
    data[0] = 10;
    data[1] = 20;
    data[2..17].copy_from_slice(&[65u8; 15]);
    data[17..32].copy_from_slice(&[66u8; 15]);
    data[32..52].copy_from_slice(&[67u8; 20]);

    let esp_now = EspNow::from_bytes(&data).unwrap();

    assert_eq!(
        esp_now,
        EspNow {
            val1: 10,
            val2: 20,
            val3: [65u8; 15],
            val4: [66u8; 15],
            free_text: [67u8; 20],
        }
    );
}

#[test]
fn test_esp_now_round_trip() {
    let esp_now = EspNow {
        val1: 10,
        val2: 20,
        val3: [65u8; 15],
        val4: [66u8; 15],
        free_text: [67u8; 20],
    };

    let mut buffer = [0u8; EspNow::MIN_PAYLOAD_SIZE];
    esp_now.to_bytes(&mut buffer).unwrap();

    let round_trip_esp_now = EspNow::from_bytes(&buffer).unwrap();

    assert_eq!(esp_now, round_trip_esp_now);
}

#[test]
fn test_esp_now_from_bytes_too_small() {
    let data: [u8; 5] = [0; 5];
    let result = EspNow::from_bytes(&data);
    assert_eq!(result, Err(CrsfParsingError::InvalidPayloadLength));
}

#[test]
fn test_esp_now_to_bytes_too_small() {
    let esp_now = EspNow {
        val1: 10,
        val2: 20,
        val3: [65u8; 15],
        val4: [66u8; 15],
        free_text: [67u8; 20],
    };
    let mut buffer = [0u8; 8];
    let result = esp_now.to_bytes(&mut buffer);
    assert_eq!(result, Err(CrsfParsingError::BufferOverflow));
}

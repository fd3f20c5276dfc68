use uf_crsf::packets::CrsfPacket;
use uf_crsf::packets::DeviceInformation;
use uf_crsf::CrsfParsingError;


#[test]
fn test_device_information_to_bytes() {
    let device_name = String::from("TBS Tracer");
    let info = DeviceInformation {
        dst_addr: 0xEA,
        src_addr: 0xEE,
        device_name,
        serial_number: 0x12345678,
        hardware_id: 0xABCDEF01,
        firmware_id: 0x98765432,
        parameters_total: 42,
        parameter_version_number: 5,
    };

    let mut buffer = [0u8; 60];
    let len = info.to_bytes(&mut buffer).unwrap();

    let expected_name = b"TBS Tracer\0";
    let expected_len = 2 + expected_name.len() + 14;
    assert_eq!(len, expected_len);

    assert_eq!(buffer[0], 0xEA);
    assert_eq!(buffer[1], 0xEE);
    assert_eq!(
        &buffer[2..2 + expected_name.len()],
        expected_name
    );
    let mut offset = 2 + expected_name.len();
    assert_eq!(&buffer[offset..offset + 4], &0x12345678u32.to_be_bytes());
    offset += 4;
    assert_eq!(&buffer[offset..offset + 4], &0xABCDEF01u32.to_be_bytes());
    offset += 4;
    assert_eq!(&buffer[offset..offset + 4], &0x98765432u32.to_be_bytes());
    offset += 4;
    assert_eq!(buffer[offset], 42);
    offset += 1;
    assert_eq!(buffer[offset], 5);
}

#[test]
fn test_device_information_from_bytes() {
    let data =
        b"\xEA\xEE\nTBS Tracer\0\x12\x34\x56\x78\xAB\xCD\xEF\x01\x98\x76\x54\x32\x2A\x05";
    let info = DeviceInformation::from_bytes(data).unwrap();

    let expected_name = String::from("\nTBS Tracer");

    assert_eq!(info.dst_addr, 0xEA);
    assert_eq!(info.src_addr, 0xEE);
    assert_eq!(info.device_name, expected_name);
    assert_eq!(info.serial_number, 0x12345678);
    assert_eq!(info.hardware_id, 0xABCDEF01);
    assert_eq!(info.firmware_id, 0x98765432);
    assert_eq!(info.parameters_total, 42);
    assert_eq!(info.parameter_version_number, 5);
}

#[test]
fn test_device_information_round_trip() {
    let device_name = String::from("MyDevice");
    let info = DeviceInformation {
        dst_addr: 0x12,
        src_addr: 0x34,
        device_name,
        serial_number: 1,
        hardware_id: 2,
        firmware_id: 3,
        parameters_total: 4,
        parameter_version_number: 5,
    };

    let mut buffer = [0u8; 60];
    let len = info.to_bytes(&mut buffer).unwrap();
    let round_trip_info = DeviceInformation::from_bytes(&buffer[..len]).unwrap();

    assert_eq!(info, round_trip_info);
}

#[test]
fn test_device_information_from_bytes_invalid_len_too_short() {
    let data = b"\xEA\xEEToo short\0";
    let result = DeviceInformation::from_bytes(data);
    assert!(matches!(
        result,
        Err(CrsfParsingError::InvalidPayloadLength)
    ));
}

#[test]
fn test_device_information_from_bytes_invalid_len_no_room_for_fixed_fields() {
    let data = b"\xEA\xEEThis string is long enough but no room for fixed fields\0";
    let result = DeviceInformation::from_bytes(data);
    assert!(matches!(
        result,
        Err(CrsfParsingError::InvalidPayloadLength)
    ));
}

#[test]
fn test_device_information_from_bytes_no_null() {
    let data = b"\xEA\xEE\nNo null terminator here and lots of other data that should be enough for the rest of the fields 12345678901234";
    let result = DeviceInformation::from_bytes(data);
    assert!(matches!(result, Err(CrsfParsingError::InvalidPayload)));
}

use uf_crsf::packets::CrsfPacket;
use uf_crsf::packets::{CommandAck, CommandPayload, CrossfireCommand, DirectCommands, FcCommand, FlowControlCommand, OsdCommand, VtxCommand};
use uf_crsf::CrsfParsingError;


fn test_round_trip(packet: &DirectCommands) {
    let mut buffer = [0u8; 64];
    let len = packet.to_bytes(&mut buffer).unwrap();
    let round_trip = DirectCommands::from_bytes(&buffer[..len]).unwrap();
    assert_eq!(packet, &round_trip);
}

#[test]
fn test_fc_command_force_disarm() {
    test_round_trip(&DirectCommands {
        dst_addr: 0xC8,
        src_addr: 0xEA,
        payload: CommandPayload::Fc(FcCommand::ForceDisarm),
    });
}

#[test]
fn test_osd_send_buttons() {
    test_round_trip(&DirectCommands {
        dst_addr: 0x80,
        src_addr: 0xEA,
        payload: CommandPayload::Osd(OsdCommand::SendButtons(0b10101000)),
    });
}

#[test]
fn test_vtx_set_frequency() {
    test_round_trip(&DirectCommands {
        dst_addr: 0xCE,
        src_addr: 0xEA,
        payload: CommandPayload::Vtx(VtxCommand::SetFrequency(5800)),
    });
}

#[test]
fn test_crossfire_model_selection() {
    test_round_trip(&DirectCommands {
        dst_addr: 0xEE,
        src_addr: 0xEA,
        payload: CommandPayload::Crossfire(CrossfireCommand::ModelSelection(5)),
    });
}

#[test]
fn test_flow_control_subscribe() {
    test_round_trip(&DirectCommands {
        dst_addr: 0xC8,
        src_addr: 0xEA,
        payload: CommandPayload::FlowControl(FlowControlCommand::Subscribe {
            frame_type: 0x14, // Link Statistics
            max_interval_time: 1000,
        }),
    });
}

#[test]
fn test_command_ack() {
    test_round_trip(&DirectCommands {
        dst_addr: 0xEA,
        src_addr: 0xEE,
        payload: CommandPayload::Ack(CommandAck {
            command_id: 0x10,
            sub_command_id: 0x01,
            action: 1,
            information: b"OK".to_vec(),
        }),
    });
}

#[test]
fn test_from_bytes_invalid_crc() {
    let data: [u8; 5] = [0xC8, 0xEA, 0x01, 0x01, 0x00]; // wrong crc
    let result = DirectCommands::from_bytes(&data);
    assert!(matches!(result, Err(CrsfParsingError::InvalidPayload)));
}

#[test]
fn test_command_wire_bytes_exact() {
    // A force-disarm command: the last byte is the inner checksum with
    // polynomial 0xBA over the frame type and the command body.
    let packet = DirectCommands {
        dst_addr: 0xC8,
        src_addr: 0xEA,
        payload: CommandPayload::Fc(FcCommand::ForceDisarm),
    };
    let mut buffer = [0u8; 64];
    let len = packet.to_bytes(&mut buffer).unwrap();
    assert_eq!(len, 5);
    assert_eq!(&buffer[..len], &[0xC8, 0xEA, 0x01, 0x01, 0xFE]);

    let decoded = DirectCommands::from_bytes(&buffer[..len]).unwrap();
    assert_eq!(decoded, packet);
}

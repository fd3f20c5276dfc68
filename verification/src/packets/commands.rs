use crate::crc8::{crc8_command, crc8_command_of};
use crate::error::CrsfParsingError;
use crate::packets::CrsfPacket;
use crate::packets::PacketType;
use crate::wire::{u16_from_be, u16_hi, u16_lo, u16_of_be, u16_to_be};
use vstd::prelude::*;

verus! {

/// A direct command (frame type 0x32): a sub-addressed command body
/// guarded by its own 8-bit checksum inside the outer frame checksum.
#[derive(Clone, Debug, PartialEq)]
pub struct DirectCommands {
    pub dst_addr: u8,
    pub src_addr: u8,
    pub payload: CommandPayload,
}

/// The command families, told apart by a command id byte.
#[derive(Clone, Debug, PartialEq)]
pub enum CommandPayload {
    Fc(FcCommand),
    Osd(OsdCommand),
    Vtx(VtxCommand),
    Crossfire(CrossfireCommand),
    FlowControl(FlowControlCommand),
    Ack(CommandAck),
}

/// Flight controller commands (command id 0x01).
#[derive(Clone, Debug, PartialEq)]
pub enum FcCommand {
    ForceDisarm,
    ScaleChannel,
}

/// OSD commands (command id 0x05).
#[derive(Clone, Debug, PartialEq)]
pub enum OsdCommand {
    SendButtons(u8),
}

/// VTX commands (command id 0x08).
#[derive(Clone, Debug, PartialEq)]
pub enum VtxCommand {
    SetFrequency(u16),
    EnablePitModeOnPowerUp { pit_mode: bool, pit_mode_control: u8, pit_mode_switch: u8 },
    PowerUpFromPitMode,
    SetDynamicPower(u8),
    SetPower(u8),
}

/// Crossfire commands (command id 0x10).
#[derive(Clone, Debug, PartialEq)]
pub enum CrossfireCommand {
    SetReceiverInBindMode,
    CancelBindMode,
    SetBindId,
    ModelSelection(u8),
    CurrentModelSelection,
    ReplyCurrentModelSelection(u8),
}

/// Flow control commands (command id 0x20).
#[derive(Clone, Debug, PartialEq)]
pub enum FlowControlCommand {
    Subscribe { frame_type: u8, max_interval_time: u16 },
    Unsubscribe { frame_type: u8 },
}

/// A command acknowledgement (command id 0xFF), with free text of at
/// most forty-eight bytes.
#[derive(Clone, Debug, PartialEq)]
pub struct CommandAck {
    pub command_id: u8,
    pub sub_command_id: u8,
    /// Zero for rejected, one for accepted.
    pub action: u8,
    /// Variable-length information text.
    pub information: Vec<u8>,
}

/// The sub-command bytes of a flight controller command.
pub open spec fn fc_bytes(c: FcCommand) -> Seq<u8> {
    match c {
        FcCommand::ForceDisarm => seq![0x01u8],
        FcCommand::ScaleChannel => seq![0x02u8],
    }
}

/// The flight controller command a sub-command body decodes to.
pub open spec fn fc_of(data: Seq<u8>) -> Result<FcCommand, CrsfParsingError> {
    if data.len() < 1 {
        Err(CrsfParsingError::InvalidPayloadLength)
    } else if data[0] == 0x01 {
        Ok(FcCommand::ForceDisarm)
    } else if data[0] == 0x02 {
        Ok(FcCommand::ScaleChannel)
    } else {
        Err(CrsfParsingError::InvalidPayload)
    }
}

/// The sub-command bytes of an OSD command.
pub open spec fn osd_bytes(c: OsdCommand) -> Seq<u8> {
    match c {
        OsdCommand::SendButtons(buttons) => seq![0x01u8, buttons],
    }
}

/// The OSD command a sub-command body decodes to.
pub open spec fn osd_of(data: Seq<u8>) -> Result<OsdCommand, CrsfParsingError> {
    if data.len() < 1 {
        Err(CrsfParsingError::InvalidPayloadLength)
    } else if data[0] == 0x01 {
        if data.len() < 2 {
            Err(CrsfParsingError::InvalidPayloadLength)
        } else {
            Ok(OsdCommand::SendButtons(data[1]))
        }
    } else {
        Err(CrsfParsingError::InvalidPayload)
    }
}

/// The sub-command bytes of a VTX command.
pub open spec fn vtx_bytes(c: VtxCommand) -> Seq<u8> {
    match c {
        VtxCommand::SetFrequency(freq) => seq![0x02u8, u16_hi(freq), u16_lo(freq)],
        VtxCommand::EnablePitModeOnPowerUp { pit_mode, pit_mode_control, pit_mode_switch } => seq![
            0x04u8,
            ((if pit_mode {
                1u8
            } else {
                0u8
            }) | (pit_mode_control << 1) | (pit_mode_switch << 3)) as u8,
        ],
        VtxCommand::PowerUpFromPitMode => seq![0x05u8],
        VtxCommand::SetDynamicPower(power) => seq![0x06u8, power],
        VtxCommand::SetPower(power) => seq![0x08u8, power],
    }
}

/// The VTX command a sub-command body decodes to.
pub open spec fn vtx_of(data: Seq<u8>) -> Result<VtxCommand, CrsfParsingError> {
    if data.len() < 1 {
        Err(CrsfParsingError::InvalidPayloadLength)
    } else if data[0] == 0x02 {
        if data.len() < 3 {
            Err(CrsfParsingError::InvalidPayloadLength)
        } else {
            Ok(VtxCommand::SetFrequency(u16_of_be(data[1], data[2])))
        }
    } else if data[0] == 0x04 {
        if data.len() < 2 {
            Err(CrsfParsingError::InvalidPayloadLength)
        } else {
            Ok(
                VtxCommand::EnablePitModeOnPowerUp {
                    pit_mode: (data[1] & 1) != 0,
                    pit_mode_control: (data[1] >> 1) & 3,
                    pit_mode_switch: (data[1] >> 3) & 15,
                },
            )
        }
    } else if data[0] == 0x05 {
        Ok(VtxCommand::PowerUpFromPitMode)
    } else if data[0] == 0x06 {
        if data.len() < 2 {
            Err(CrsfParsingError::InvalidPayloadLength)
        } else {
            Ok(VtxCommand::SetDynamicPower(data[1]))
        }
    } else if data[0] == 0x08 {
        if data.len() < 2 {
            Err(CrsfParsingError::InvalidPayloadLength)
        } else {
            Ok(VtxCommand::SetPower(data[1]))
        }
    } else {
        Err(CrsfParsingError::InvalidPayload)
    }
}

/// The sub-command bytes of a crossfire command.
pub open spec fn crossfire_bytes(c: CrossfireCommand) -> Seq<u8> {
    match c {
        CrossfireCommand::SetReceiverInBindMode => seq![0x01u8],
        CrossfireCommand::CancelBindMode => seq![0x02u8],
        CrossfireCommand::SetBindId => seq![0x03u8],
        CrossfireCommand::ModelSelection(model) => seq![0x05u8, model],
        CrossfireCommand::CurrentModelSelection => seq![0x06u8],
        CrossfireCommand::ReplyCurrentModelSelection(model) => seq![0x07u8, model],
    }
}

/// The crossfire command a sub-command body decodes to.
pub open spec fn crossfire_of(data: Seq<u8>) -> Result<CrossfireCommand, CrsfParsingError> {
    if data.len() < 1 {
        Err(CrsfParsingError::InvalidPayloadLength)
    } else if data[0] == 0x01 {
        Ok(CrossfireCommand::SetReceiverInBindMode)
    } else if data[0] == 0x02 {
        Ok(CrossfireCommand::CancelBindMode)
    } else if data[0] == 0x03 {
        Ok(CrossfireCommand::SetBindId)
    } else if data[0] == 0x05 {
        if data.len() < 2 {
            Err(CrsfParsingError::InvalidPayloadLength)
        } else {
            Ok(CrossfireCommand::ModelSelection(data[1]))
        }
    } else if data[0] == 0x06 {
        Ok(CrossfireCommand::CurrentModelSelection)
    } else if data[0] == 0x07 {
        if data.len() < 2 {
            Err(CrsfParsingError::InvalidPayloadLength)
        } else {
            Ok(CrossfireCommand::ReplyCurrentModelSelection(data[1]))
        }
    } else {
        Err(CrsfParsingError::InvalidPayload)
    }
}

/// The sub-command bytes of a flow control command.
pub open spec fn flow_bytes(c: FlowControlCommand) -> Seq<u8> {
    match c {
        FlowControlCommand::Subscribe { frame_type, max_interval_time } => seq![
            0x01u8,
            frame_type,
            u16_hi(max_interval_time),
            u16_lo(max_interval_time),
        ],
        FlowControlCommand::Unsubscribe { frame_type } => seq![0x02u8, frame_type],
    }
}

/// The flow control command a sub-command body decodes to.
pub open spec fn flow_of(data: Seq<u8>) -> Result<FlowControlCommand, CrsfParsingError> {
    if data.len() < 1 {
        Err(CrsfParsingError::InvalidPayloadLength)
    } else if data[0] == 0x01 {
        if data.len() < 4 {
            Err(CrsfParsingError::InvalidPayloadLength)
        } else {
            Ok(
                FlowControlCommand::Subscribe {
                    frame_type: data[1],
                    max_interval_time: u16_of_be(data[2], data[3]),
                },
            )
        }
    } else if data[0] == 0x02 {
        if data.len() < 2 {
            Err(CrsfParsingError::InvalidPayloadLength)
        } else {
            Ok(FlowControlCommand::Unsubscribe { frame_type: data[1] })
        }
    } else {
        Err(CrsfParsingError::InvalidPayload)
    }
}

/// The bytes of a command acknowledgement.
pub open spec fn ack_bytes(a: CommandAck) -> Seq<u8> {
    seq![a.command_id, a.sub_command_id, a.action] + a.information@
}

/// The command id byte of each command family.
pub open spec fn spec_command_id(p: CommandPayload) -> u8 {
    match p {
        CommandPayload::Fc(_) => 0x01,
        CommandPayload::Osd(_) => 0x05,
        CommandPayload::Vtx(_) => 0x08,
        CommandPayload::Crossfire(_) => 0x10,
        CommandPayload::FlowControl(_) => 0x20,
        CommandPayload::Ack(_) => 0xFF,
    }
}

/// The sub-command bytes of a command payload, after its command id.
pub open spec fn command_payload_bytes(p: CommandPayload) -> Seq<u8> {
    match p {
        CommandPayload::Fc(c) => fc_bytes(c),
        CommandPayload::Osd(c) => osd_bytes(c),
        CommandPayload::Vtx(c) => vtx_bytes(c),
        CommandPayload::Crossfire(c) => crossfire_bytes(c),
        CommandPayload::FlowControl(c) => flow_bytes(c),
        CommandPayload::Ack(a) => ack_bytes(a),
    }
}

impl FcCommand {
    pub(crate) fn try_from(data: &[u8]) -> (r: Result<Self, CrsfParsingError>)
        ensures
            r == fc_of(data@),
    {
        if data.len() < 1 {
            return Err(CrsfParsingError::InvalidPayloadLength);
        }
        match data[0] {
            0x01 => Ok(FcCommand::ForceDisarm),
            0x02 => Ok(FcCommand::ScaleChannel),
            _ => Err(CrsfParsingError::InvalidPayload),
        }
    }

    pub(crate) fn write_to(&self, buffer: &mut [u8]) -> (r: Result<usize, CrsfParsingError>)
        ensures
            ({
                let b = fc_bytes(*self);
                if old(buffer)@.len() >= b.len() {
                    &&& r == Ok::<usize, CrsfParsingError>(b.len() as usize)
                    &&& final(buffer)@ == b + old(buffer)@.skip(b.len() as int)
                } else {
                    &&& r == Err::<usize, CrsfParsingError>(CrsfParsingError::BufferOverflow)
                    &&& final(buffer)@ == old(buffer)@
                }
            }),
    {
        if buffer.len() < 1 {
            return Err(CrsfParsingError::BufferOverflow);
        }
        let sub_command_id: u8 = match self {
            FcCommand::ForceDisarm => 0x01,
            FcCommand::ScaleChannel => 0x02,
        };
        buffer[0] = sub_command_id;
        proof {
            assert(buffer@ =~= fc_bytes(*self) + old(buffer)@.skip(1));
        }
        Ok(1)
    }
}

impl OsdCommand {
    pub(crate) fn try_from(data: &[u8]) -> (r: Result<Self, CrsfParsingError>)
        ensures
            r == osd_of(data@),
    {
        if data.len() < 1 {
            return Err(CrsfParsingError::InvalidPayloadLength);
        }
        if data[0] == 0x01 {
            if data.len() < 2 {
                return Err(CrsfParsingError::InvalidPayloadLength);
            }
            Ok(OsdCommand::SendButtons(data[1]))
        } else {
            Err(CrsfParsingError::InvalidPayload)
        }
    }

    pub(crate) fn write_to(&self, buffer: &mut [u8]) -> (r: Result<usize, CrsfParsingError>)
        ensures
            ({
                let b = osd_bytes(*self);
                if old(buffer)@.len() >= b.len() {
                    &&& r == Ok::<usize, CrsfParsingError>(b.len() as usize)
                    &&& final(buffer)@ == b + old(buffer)@.skip(b.len() as int)
                } else {
                    &&& r == Err::<usize, CrsfParsingError>(CrsfParsingError::BufferOverflow)
                    &&& final(buffer)@ == old(buffer)@
                }
            }),
    {
        if buffer.len() < 2 {
            return Err(CrsfParsingError::BufferOverflow);
        }
        match self {
            OsdCommand::SendButtons(buttons) => {
                buffer[0] = 0x01;
                buffer[1] = *buttons;
            },
        }
        proof {
            assert(buffer@ =~= osd_bytes(*self) + old(buffer)@.skip(2));
        }
        Ok(2)
    }
}

impl VtxCommand {
    pub(crate) fn try_from(data: &[u8]) -> (r: Result<Self, CrsfParsingError>)
        ensures
            r == vtx_of(data@),
    {
        if data.len() < 1 {
            return Err(CrsfParsingError::InvalidPayloadLength);
        }
        match data[0] {
            0x02 => {
                if data.len() < 3 {
                    return Err(CrsfParsingError::InvalidPayloadLength);
                }
                Ok(VtxCommand::SetFrequency(u16_from_be(data[1], data[2])))
            },
            0x04 => {
                if data.len() < 2 {
                    return Err(CrsfParsingError::InvalidPayloadLength);
                }
                let byte = data[1];
                Ok(
                    VtxCommand::EnablePitModeOnPowerUp {
                        pit_mode: (byte & 1) != 0,
                        pit_mode_control: (byte >> 1) & 3,
                        pit_mode_switch: (byte >> 3) & 15,
                    },
                )
            },
            0x05 => Ok(VtxCommand::PowerUpFromPitMode),
            0x06 => {
                if data.len() < 2 {
                    return Err(CrsfParsingError::InvalidPayloadLength);
                }
                Ok(VtxCommand::SetDynamicPower(data[1]))
            },
            0x08 => {
                if data.len() < 2 {
                    return Err(CrsfParsingError::InvalidPayloadLength);
                }
                Ok(VtxCommand::SetPower(data[1]))
            },
            _ => Err(CrsfParsingError::InvalidPayload),
        }
    }

    pub(crate) fn write_to(&self, buffer: &mut [u8]) -> (r: Result<usize, CrsfParsingError>)
        ensures
            ({
                let b = vtx_bytes(*self);
                if old(buffer)@.len() >= b.len() {
                    &&& r == Ok::<usize, CrsfParsingError>(b.len() as usize)
                    &&& final(buffer)@ == b + old(buffer)@.skip(b.len() as int)
                } else {
                    &&& r == Err::<usize, CrsfParsingError>(CrsfParsingError::BufferOverflow)
                    &&& final(buffer)@ == old(buffer)@
                }
            }),
    {
        match self {
            VtxCommand::SetFrequency(freq) => {
                if buffer.len() < 3 {
                    return Err(CrsfParsingError::BufferOverflow);
                }
                let (hi, lo) = u16_to_be(*freq);
                buffer[0] = 0x02;
                buffer[1] = hi;
                buffer[2] = lo;
                proof {
                    assert(buffer@ =~= vtx_bytes(*self) + old(buffer)@.skip(3));
                }
                Ok(3)
            },
            VtxCommand::EnablePitModeOnPowerUp { pit_mode, pit_mode_control, pit_mode_switch } => {
                if buffer.len() < 2 {
                    return Err(CrsfParsingError::BufferOverflow);
                }
                let flag: u8 = if *pit_mode {
                    1
                } else {
                    0
                };
                buffer[0] = 0x04;
                buffer[1] = flag | (*pit_mode_control << 1) | (*pit_mode_switch << 3);
                proof {
                    assert(buffer@ =~= vtx_bytes(*self) + old(buffer)@.skip(2));
                }
                Ok(2)
            },
            VtxCommand::PowerUpFromPitMode => {
                if buffer.len() < 1 {
                    return Err(CrsfParsingError::BufferOverflow);
                }
                buffer[0] = 0x05;
                proof {
                    assert(buffer@ =~= vtx_bytes(*self) + old(buffer)@.skip(1));
                }
                Ok(1)
            },
            VtxCommand::SetDynamicPower(power) => {
                if buffer.len() < 2 {
                    return Err(CrsfParsingError::BufferOverflow);
                }
                buffer[0] = 0x06;
                buffer[1] = *power;
                proof {
                    assert(buffer@ =~= vtx_bytes(*self) + old(buffer)@.skip(2));
                }
                Ok(2)
            },
            VtxCommand::SetPower(power) => {
                if buffer.len() < 2 {
                    return Err(CrsfParsingError::BufferOverflow);
                }
                buffer[0] = 0x08;
                buffer[1] = *power;
                proof {
                    assert(buffer@ =~= vtx_bytes(*self) + old(buffer)@.skip(2));
                }
                Ok(2)
            },
        }
    }
}

impl CrossfireCommand {
    pub(crate) fn try_from(data: &[u8]) -> (r: Result<Self, CrsfParsingError>)
        ensures
            r == crossfire_of(data@),
    {
        if data.len() < 1 {
            return Err(CrsfParsingError::InvalidPayloadLength);
        }
        match data[0] {
            0x01 => Ok(CrossfireCommand::SetReceiverInBindMode),
            0x02 => Ok(CrossfireCommand::CancelBindMode),
            0x03 => Ok(CrossfireCommand::SetBindId),
            0x05 => {
                if data.len() < 2 {
                    return Err(CrsfParsingError::InvalidPayloadLength);
                }
                Ok(CrossfireCommand::ModelSelection(data[1]))
            },
            0x06 => Ok(CrossfireCommand::CurrentModelSelection),
            0x07 => {
                if data.len() < 2 {
                    return Err(CrsfParsingError::InvalidPayloadLength);
                }
                Ok(CrossfireCommand::ReplyCurrentModelSelection(data[1]))
            },
            _ => Err(CrsfParsingError::InvalidPayload),
        }
    }

    pub(crate) fn write_to(&self, buffer: &mut [u8]) -> (r: Result<usize, CrsfParsingError>)
        ensures
            ({
                let b = crossfire_bytes(*self);
                if old(buffer)@.len() >= b.len() {
                    &&& r == Ok::<usize, CrsfParsingError>(b.len() as usize)
                    &&& final(buffer)@ == b + old(buffer)@.skip(b.len() as int)
                } else {
                    &&& r == Err::<usize, CrsfParsingError>(CrsfParsingError::BufferOverflow)
                    &&& final(buffer)@ == old(buffer)@
                }
            }),
    {
        match self {
            CrossfireCommand::SetReceiverInBindMode => {
                if buffer.len() < 1 {
                    return Err(CrsfParsingError::BufferOverflow);
                }
                buffer[0] = 0x01;
                proof {
                    assert(buffer@ =~= crossfire_bytes(*self) + old(buffer)@.skip(1));
                }
                Ok(1)
            },
            CrossfireCommand::CancelBindMode => {
                if buffer.len() < 1 {
                    return Err(CrsfParsingError::BufferOverflow);
                }
                buffer[0] = 0x02;
                proof {
                    assert(buffer@ =~= crossfire_bytes(*self) + old(buffer)@.skip(1));
                }
                Ok(1)
            },
            CrossfireCommand::SetBindId => {
                if buffer.len() < 1 {
                    return Err(CrsfParsingError::BufferOverflow);
                }
                buffer[0] = 0x03;
                proof {
                    assert(buffer@ =~= crossfire_bytes(*self) + old(buffer)@.skip(1));
                }
                Ok(1)
            },
            CrossfireCommand::ModelSelection(model) => {
                if buffer.len() < 2 {
                    return Err(CrsfParsingError::BufferOverflow);
                }
                buffer[0] = 0x05;
                buffer[1] = *model;
                proof {
                    assert(buffer@ =~= crossfire_bytes(*self) + old(buffer)@.skip(2));
                }
                Ok(2)
            },
            CrossfireCommand::CurrentModelSelection => {
                if buffer.len() < 1 {
                    return Err(CrsfParsingError::BufferOverflow);
                }
                buffer[0] = 0x06;
                proof {
                    assert(buffer@ =~= crossfire_bytes(*self) + old(buffer)@.skip(1));
                }
                Ok(1)
            },
            CrossfireCommand::ReplyCurrentModelSelection(model) => {
                if buffer.len() < 2 {
                    return Err(CrsfParsingError::BufferOverflow);
                }
                buffer[0] = 0x07;
                buffer[1] = *model;
                proof {
                    assert(buffer@ =~= crossfire_bytes(*self) + old(buffer)@.skip(2));
                }
                Ok(2)
            },
        }
    }
}

impl FlowControlCommand {
    pub(crate) fn try_from(data: &[u8]) -> (r: Result<Self, CrsfParsingError>)
        ensures
            r == flow_of(data@),
    {
        if data.len() < 1 {
            return Err(CrsfParsingError::InvalidPayloadLength);
        }
        match data[0] {
            0x01 => {
                if data.len() < 4 {
                    return Err(CrsfParsingError::InvalidPayloadLength);
                }
                Ok(
                    FlowControlCommand::Subscribe {
                        frame_type: data[1],
                        max_interval_time: u16_from_be(data[2], data[3]),
                    },
                )
            },
            0x02 => {
                if data.len() < 2 {
                    return Err(CrsfParsingError::InvalidPayloadLength);
                }
                Ok(FlowControlCommand::Unsubscribe { frame_type: data[1] })
            },
            _ => Err(CrsfParsingError::InvalidPayload),
        }
    }

    pub(crate) fn write_to(&self, buffer: &mut [u8]) -> (r: Result<usize, CrsfParsingError>)
        ensures
            ({
                let b = flow_bytes(*self);
                if old(buffer)@.len() >= b.len() {
                    &&& r == Ok::<usize, CrsfParsingError>(b.len() as usize)
                    &&& final(buffer)@ == b + old(buffer)@.skip(b.len() as int)
                } else {
                    &&& r == Err::<usize, CrsfParsingError>(CrsfParsingError::BufferOverflow)
                    &&& final(buffer)@ == old(buffer)@
                }
            }),
    {
        match self {
            FlowControlCommand::Subscribe { frame_type, max_interval_time } => {
                if buffer.len() < 4 {
                    return Err(CrsfParsingError::BufferOverflow);
                }
                let (hi, lo) = u16_to_be(*max_interval_time);
                buffer[0] = 0x01;
                buffer[1] = *frame_type;
                buffer[2] = hi;
                buffer[3] = lo;
                proof {
                    assert(buffer@ =~= flow_bytes(*self) + old(buffer)@.skip(4));
                }
                Ok(4)
            },
            FlowControlCommand::Unsubscribe { frame_type } => {
                if buffer.len() < 2 {
                    return Err(CrsfParsingError::BufferOverflow);
                }
                buffer[0] = 0x02;
                buffer[1] = *frame_type;
                proof {
                    assert(buffer@ =~= flow_bytes(*self) + old(buffer)@.skip(2));
                }
                Ok(2)
            },
        }
    }
}

impl CommandAck {
    pub(crate) fn try_from(data: &[u8]) -> (r: Result<Self, CrsfParsingError>)
        ensures
            data@.len() < 3 ==> r == Err::<Self, CrsfParsingError>(
                CrsfParsingError::InvalidPayloadLength,
            ),
            data@.len() >= 3 && data@.len() - 3 > 48 ==> r == Err::<Self, CrsfParsingError>(
                CrsfParsingError::BufferOverflow,
            ),
            data@.len() >= 3 && data@.len() - 3 <= 48 ==> (r matches Ok(a) && a.command_id
                == data@[0] && a.sub_command_id == data@[1] && a.action == data@[2]
                && a.information@ == data@.skip(3)),
    {
        let dlen = data.len();
        if dlen < 3 {
            return Err(CrsfParsingError::InvalidPayloadLength);
        }
        if dlen - 3 > 48 {
            return Err(CrsfParsingError::BufferOverflow);
        }
        let rest = vstd::slice::slice_subrange(data, 3, dlen);
        let information = vstd::slice::slice_to_vec(rest);
        proof {
            assert(information@ =~= data@.skip(3));
        }
        Ok(CommandAck { command_id: data[0], sub_command_id: data[1], action: data[2], information })
    }

    pub(crate) fn write_to(&self, buffer: &mut [u8]) -> (r: Result<usize, CrsfParsingError>)
        ensures
            ({
                let b = ack_bytes(*self);
                if old(buffer)@.len() >= b.len() {
                    &&& r == Ok::<usize, CrsfParsingError>(b.len() as usize)
                    &&& final(buffer)@ == b + old(buffer)@.skip(b.len() as int)
                } else {
                    &&& r == Err::<usize, CrsfParsingError>(CrsfParsingError::BufferOverflow)
                    &&& final(buffer)@ == old(buffer)@
                }
            }),
    {
        let ilen = self.information.len();
        let buf_len = buffer.len();
        if buf_len < 3 || buf_len - 3 < ilen {
            return Err(CrsfParsingError::BufferOverflow);
        }
        buffer[0] = self.command_id;
        buffer[1] = self.sub_command_id;
        buffer[2] = self.action;
        let mut i: usize = 0;
        while i < ilen
            invariant
                0 <= i <= ilen,
                ilen == self.information@.len(),
                buffer@.len() == old(buffer)@.len(),
                buffer@.len() == buf_len,
                3 + ilen <= buf_len,
                buffer@[0] == self.command_id,
                buffer@[1] == self.sub_command_id,
                buffer@[2] == self.action,
                forall|m: int| 0 <= m < i ==> buffer@[3 + m] == self.information@[m],
                forall|m: int| 3 + i <= m < buffer@.len() ==> buffer@[m] == old(buffer)@[m],
            decreases ilen - i,
        {
            buffer[3 + i] = self.information[i];
            i += 1;
        }
        proof {
            assert(buffer@ =~= ack_bytes(*self) + old(buffer)@.skip(3 + ilen as int));
        }
        Ok(3 + ilen)
    }
}

impl CommandPayload {
    /// The command id byte of this payload's family.
    pub(crate) fn command_id(&self) -> (r: u8)
        ensures
            r == spec_command_id(*self),
    {
        match self {
            CommandPayload::Fc(_) => 0x01,
            CommandPayload::Osd(_) => 0x05,
            CommandPayload::Vtx(_) => 0x08,
            CommandPayload::Crossfire(_) => 0x10,
            CommandPayload::FlowControl(_) => 0x20,
            CommandPayload::Ack(_) => 0xFF,
        }
    }

    pub(crate) fn write_to(&self, buffer: &mut [u8]) -> (r: Result<usize, CrsfParsingError>)
        ensures
            ({
                let b = command_payload_bytes(*self);
                if old(buffer)@.len() >= b.len() {
                    &&& r == Ok::<usize, CrsfParsingError>(b.len() as usize)
                    &&& final(buffer)@ == b + old(buffer)@.skip(b.len() as int)
                } else {
                    &&& r == Err::<usize, CrsfParsingError>(CrsfParsingError::BufferOverflow)
                    &&& final(buffer)@ == old(buffer)@
                }
            }),
    {
        match self {
            CommandPayload::Fc(cmd) => cmd.write_to(buffer),
            CommandPayload::Osd(cmd) => cmd.write_to(buffer),
            CommandPayload::Vtx(cmd) => cmd.write_to(buffer),
            CommandPayload::Crossfire(cmd) => cmd.write_to(buffer),
            CommandPayload::FlowControl(cmd) => cmd.write_to(buffer),
            CommandPayload::Ack(cmd) => cmd.write_to(buffer),
        }
    }
}

impl DirectCommands {
    pub const MIN_PAYLOAD_SIZE: usize = 4;
}

impl CrsfPacket for DirectCommands {
    open spec fn spec_packet_type() -> PacketType {
        PacketType::Command
    }

    open spec fn spec_min_payload_size() -> usize {
        4
    }

    open spec fn spec_to_bytes(self) -> Seq<u8> {
        let prefix = seq![self.dst_addr, self.src_addr, spec_command_id(self.payload)]
            + command_payload_bytes(self.payload);
        prefix + seq![crc8_command_of(seq![0x32u8] + prefix)]
    }

    open spec fn from_bytes_post(data: Seq<u8>, r: Result<Self, CrsfParsingError>) -> bool {
        if data.len() < 4 {
            r == Err::<Self, CrsfParsingError>(CrsfParsingError::InvalidPayloadLength)
        } else if crc8_command_of(seq![0x32u8] + data.subrange(0, data.len() - 1)) != data[data.len()
            - 1] {
            r == Err::<Self, CrsfParsingError>(CrsfParsingError::InvalidPayload)
        } else {
            let body = data.subrange(3, data.len() - 1);
            let dst = data[0];
            let src = data[1];
            if data[2] == 0x01 {
                r == (match fc_of(body) {
                    Ok(c) => Ok(
                        DirectCommands {
                            dst_addr: dst,
                            src_addr: src,
                            payload: CommandPayload::Fc(c),
                        },
                    ),
                    Err(e) => Err(e),
                })
            } else if data[2] == 0x05 {
                r == (match osd_of(body) {
                    Ok(c) => Ok(
                        DirectCommands {
                            dst_addr: dst,
                            src_addr: src,
                            payload: CommandPayload::Osd(c),
                        },
                    ),
                    Err(e) => Err(e),
                })
            } else if data[2] == 0x08 {
                r == (match vtx_of(body) {
                    Ok(c) => Ok(
                        DirectCommands {
                            dst_addr: dst,
                            src_addr: src,
                            payload: CommandPayload::Vtx(c),
                        },
                    ),
                    Err(e) => Err(e),
                })
            } else if data[2] == 0x10 {
                r == (match crossfire_of(body) {
                    Ok(c) => Ok(
                        DirectCommands {
                            dst_addr: dst,
                            src_addr: src,
                            payload: CommandPayload::Crossfire(c),
                        },
                    ),
                    Err(e) => Err(e),
                })
            } else if data[2] == 0x20 {
                r == (match flow_of(body) {
                    Ok(c) => Ok(
                        DirectCommands {
                            dst_addr: dst,
                            src_addr: src,
                            payload: CommandPayload::FlowControl(c),
                        },
                    ),
                    Err(e) => Err(e),
                })
            } else if data[2] == 0xFF {
                if body.len() < 3 {
                    r == Err::<Self, CrsfParsingError>(CrsfParsingError::InvalidPayloadLength)
                } else if body.len() - 3 > 48 {
                    r == Err::<Self, CrsfParsingError>(CrsfParsingError::BufferOverflow)
                } else {
                    &&& r matches Ok(p)
                    &&& p.dst_addr == dst
                    &&& p.src_addr == src
                    &&& p.payload matches CommandPayload::Ack(a)
                    &&& a.command_id == body[0]
                    &&& a.sub_command_id == body[1]
                    &&& a.action == body[2]
                    &&& a.information@ == body.skip(3)
                }
            } else {
                r == Err::<Self, CrsfParsingError>(CrsfParsingError::InvalidPayload)
            }
        }
    }

    fn packet_type() -> (t: PacketType) {
        PacketType::Command
    }

    fn min_payload_size() -> (n: usize) {
        4
    }

    fn to_bytes(&self, buffer: &mut [u8]) -> (r: Result<usize, CrsfParsingError>) {
        let ghost pb = command_payload_bytes(self.payload);
        let buf_len = buffer.len();
        let plen = match &self.payload {
            CommandPayload::Fc(_) => 1,
            CommandPayload::Osd(_) => 2,
            CommandPayload::Vtx(c) => match c {
                VtxCommand::SetFrequency(_) => 3,
                VtxCommand::EnablePitModeOnPowerUp { .. } => 2,
                VtxCommand::PowerUpFromPitMode => 1,
                VtxCommand::SetDynamicPower(_) => 2,
                VtxCommand::SetPower(_) => 2,
            },
            CommandPayload::Crossfire(c) => match c {
                CrossfireCommand::SetReceiverInBindMode => 1,
                CrossfireCommand::CancelBindMode => 1,
                CrossfireCommand::SetBindId => 1,
                CrossfireCommand::ModelSelection(_) => 2,
                CrossfireCommand::CurrentModelSelection => 1,
                CrossfireCommand::ReplyCurrentModelSelection(_) => 2,
            },
            CommandPayload::FlowControl(c) => match c {
                FlowControlCommand::Subscribe { .. } => 4,
                FlowControlCommand::Unsubscribe { .. } => 2,
            },
            CommandPayload::Ack(a) => {
                let ilen = a.information.len();
                if ilen > usize::MAX - 3 {
                    proof {
                        assert(buf_len < pb.len() + 4);
                    }
                    return Err(CrsfParsingError::BufferOverflow);
                }
                3 + ilen
            },
        };
        proof {
            assert(plen == pb.len());
        }
        if buf_len < 4 || buf_len - 4 < plen {
            return Err(CrsfParsingError::BufferOverflow);
        }
        buffer[0] = self.dst_addr;
        buffer[1] = self.src_addr;
        buffer[2] = self.payload.command_id();
        let (_, tail) = buffer.split_at_mut(3);
        let w = self.payload.write_to(tail);
        proof {
            assert(w == Ok::<usize, CrsfParsingError>(pb.len() as usize));
            assert(buffer@.subrange(3, 3 + plen as int) =~= pb);
            assert(buffer@.subrange(0, 3 + plen as int) =~= seq![
                self.dst_addr,
                self.src_addr,
                spec_command_id(self.payload),
            ] + pb);
        }
        let total = 3 + plen;
        let crc = crc8_command(0x32, buffer, 0, total);
        buffer[total] = crc;
        proof {
            assert(buffer@ =~= self.spec_to_bytes() + old(buffer)@.skip(total + 1));
        }
        Ok(total + 1)
    }

    fn from_bytes(data: &[u8]) -> (r: Result<Self, CrsfParsingError>) {
        let dlen = data.len();
        if dlen < 4 {
            return Err(CrsfParsingError::InvalidPayloadLength);
        }
        let received_crc = data[dlen - 1];
        let calculated_crc = crc8_command(0x32, data, 0, dlen - 1);
        if received_crc != calculated_crc {
            return Err(CrsfParsingError::InvalidPayload);
        }
        let dst_addr = data[0];
        let src_addr = data[1];
        let command_id = data[2];
        let body = vstd::slice::slice_subrange(data, 3, dlen - 1);
        let payload = match command_id {
            0x01 => match FcCommand::try_from(body) {
                Ok(c) => CommandPayload::Fc(c),
                Err(e) => {
                    return Err(e);
                },
            },
            0x05 => match OsdCommand::try_from(body) {
                Ok(c) => CommandPayload::Osd(c),
                Err(e) => {
                    return Err(e);
                },
            },
            0x08 => match VtxCommand::try_from(body) {
                Ok(c) => CommandPayload::Vtx(c),
                Err(e) => {
                    return Err(e);
                },
            },
            0x10 => match CrossfireCommand::try_from(body) {
                Ok(c) => CommandPayload::Crossfire(c),
                Err(e) => {
                    return Err(e);
                },
            },
            0x20 => match FlowControlCommand::try_from(body) {
                Ok(c) => CommandPayload::FlowControl(c),
                Err(e) => {
                    return Err(e);
                },
            },
            0xFF => match CommandAck::try_from(body) {
                Ok(a) => CommandPayload::Ack(a),
                Err(e) => {
                    return Err(e);
                },
            },
            _ => {
                return Err(CrsfParsingError::InvalidPayload);
            },
        };
        Ok(Self { dst_addr, src_addr, payload })
    }
}

} // verus!

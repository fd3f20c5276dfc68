use crate::error::CrsfParsingError;
use crate::packets::CrsfPacket;
use crate::packets::PacketType;
use crate::wire::{
    i16_bits, i16_from_be, i16_of_bits, i16_to_be, u16_hi, u16_lo, u16_of_be, u32_byte,
    u32_from_be, u32_of_be, u32_to_be,
};
use vstd::prelude::*;

verus! {

/// MAVLink flight-controller mode telemetry.
#[derive(Clone, Debug, PartialEq)]
pub struct MavLinkFc {
    pub airspeed: i16,
    /// Vehicle mode flags.
    pub base_mode: u8,
    /// Autopilot-specific flags.
    pub custom_mode: u32,
    /// Flight controller type.
    pub autopilot_type: u8,
    /// Vehicle type.
    pub firmware_type: u8,
}

impl MavLinkFc {
    pub const MIN_PAYLOAD_SIZE: usize = 9;
}

impl CrsfPacket for MavLinkFc {
    open spec fn spec_packet_type() -> PacketType {
        PacketType::MavLinkFc
    }

    open spec fn spec_min_payload_size() -> usize {
        9
    }

    open spec fn spec_to_bytes(self) -> Seq<u8> {
        seq![
            u16_hi(i16_bits(self.airspeed)),
            u16_lo(i16_bits(self.airspeed)),
            self.base_mode,
            u32_byte(self.custom_mode, 0),
            u32_byte(self.custom_mode, 1),
            u32_byte(self.custom_mode, 2),
            u32_byte(self.custom_mode, 3),
            self.autopilot_type,
            self.firmware_type,
        ]
    }

    open spec fn from_bytes_post(data: Seq<u8>, r: Result<Self, CrsfParsingError>) -> bool {
        r == ({
            if data.len() == 9 {
                Ok(
                    MavLinkFc {
                        airspeed: i16_of_bits(u16_of_be(data[0], data[1])),
                        base_mode: data[2],
                        custom_mode: u32_of_be(data[3], data[4], data[5], data[6]),
                        autopilot_type: data[7],
                        firmware_type: data[8],
                    },
                )
            } else {
                Err(CrsfParsingError::InvalidPayloadLength)
            }
        })
    }

    fn packet_type() -> (t: PacketType) {
        PacketType::MavLinkFc
    }

    fn min_payload_size() -> (n: usize) {
        9
    }

    fn to_bytes(&self, buffer: &mut [u8]) -> (r: Result<usize, CrsfParsingError>) {
        if buffer.len() < 9 {
            return Err(CrsfParsingError::BufferOverflow);
        }
        let (a0, a1) = i16_to_be(self.airspeed);
        let (m0, m1, m2, m3) = u32_to_be(self.custom_mode);
        buffer[0] = a0;
        buffer[1] = a1;
        buffer[2] = self.base_mode;
        buffer[3] = m0;
        buffer[4] = m1;
        buffer[5] = m2;
        buffer[6] = m3;
        buffer[7] = self.autopilot_type;
        buffer[8] = self.firmware_type;
        proof {
            assert(buffer@ =~= self.spec_to_bytes() + old(buffer)@.skip(9));
        }
        Ok(9)
    }

    fn from_bytes(data: &[u8]) -> (r: Result<Self, CrsfParsingError>) {
        if data.len() == 9 {
            Ok(
                Self {
                    airspeed: i16_from_be(data[0], data[1]),
                    base_mode: data[2],
                    custom_mode: u32_from_be(data[3], data[4], data[5], data[6]),
                    autopilot_type: data[7],
                    firmware_type: data[8],
                },
            )
        } else {
            Err(CrsfParsingError::InvalidPayloadLength)
        }
    }
}


/// Decoding the payload this record encodes gives the record back.
pub proof fn lemma_mavlink_fc_round_trip(x: MavLinkFc, r: Result<MavLinkFc, CrsfParsingError>)
    requires
        MavLinkFc::from_bytes_post(x.spec_to_bytes(), r),
    ensures
        r == Ok::<MavLinkFc, CrsfParsingError>(x),
{
    broadcast use crate::wire::lemma_u16_be_round_trip, crate::wire::lemma_i16_bits_round_trip,
        crate::wire::lemma_u32_be_round_trip;

}

} // verus!

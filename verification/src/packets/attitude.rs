use crate::error::CrsfParsingError;
use crate::packets::CrsfPacket;
use crate::packets::PacketType;
use crate::wire::{i16_bits, i16_from_be, i16_of_bits, i16_to_be, u16_hi, u16_lo, u16_of_be};
use vstd::prelude::*;

verus! {

/// The craft's attitude angles.
#[derive(Default, Clone, Debug, PartialEq)]
pub struct Attitude {
    /// Pitch angle in 100 urad units.
    pub pitch: i16,
    /// Roll angle in 100 urad units.
    pub roll: i16,
    /// Yaw angle in 100 urad units.
    pub yaw: i16,
}

impl Attitude {
    pub const MIN_PAYLOAD_SIZE: usize = 6;

    pub fn new(pitch: i16, roll: i16, yaw: i16) -> (r: Result<Self, CrsfParsingError>)
        ensures
            r == Ok::<Self, CrsfParsingError>(Attitude { pitch, roll, yaw }),
    {
        Ok(Self { pitch, roll, yaw })
    }
}

impl CrsfPacket for Attitude {
    open spec fn spec_packet_type() -> PacketType {
        PacketType::Attitude
    }

    open spec fn spec_min_payload_size() -> usize {
        6
    }

    open spec fn spec_to_bytes(self) -> Seq<u8> {
        seq![
            u16_hi(i16_bits(self.pitch)),
            u16_lo(i16_bits(self.pitch)),
            u16_hi(i16_bits(self.roll)),
            u16_lo(i16_bits(self.roll)),
            u16_hi(i16_bits(self.yaw)),
            u16_lo(i16_bits(self.yaw)),
        ]
    }

    open spec fn from_bytes_post(data: Seq<u8>, r: Result<Self, CrsfParsingError>) -> bool {
        r == ({
            if data.len() >= 6 {
                Ok(
                    Attitude {
                        pitch: i16_of_bits(u16_of_be(data[0], data[1])),
                        roll: i16_of_bits(u16_of_be(data[2], data[3])),
                        yaw: i16_of_bits(u16_of_be(data[4], data[5])),
                    },
                )
            } else {
                Err(CrsfParsingError::InvalidPayloadLength)
            }
        })
    }

    fn packet_type() -> (t: PacketType) {
        PacketType::Attitude
    }

    fn min_payload_size() -> (n: usize) {
        6
    }

    fn to_bytes(&self, buffer: &mut [u8]) -> (r: Result<usize, CrsfParsingError>) {
        if buffer.len() < 6 {
            return Err(CrsfParsingError::BufferOverflow);
        }
        let (hi0, lo0) = i16_to_be(self.pitch);
        let (hi1, lo1) = i16_to_be(self.roll);
        let (hi2, lo2) = i16_to_be(self.yaw);
        buffer[0] = hi0;
        buffer[1] = lo0;
        buffer[2] = hi1;
        buffer[3] = lo1;
        buffer[4] = hi2;
        buffer[5] = lo2;
        proof {
            assert(buffer@ =~= self.spec_to_bytes() + old(buffer)@.skip(6));
        }
        Ok(6)
    }

    fn from_bytes(data: &[u8]) -> (r: Result<Self, CrsfParsingError>) {
        if data.len() >= 6 {
            Ok(
                Self {
                    pitch: i16_from_be(data[0], data[1]),
                    roll: i16_from_be(data[2], data[3]),
                    yaw: i16_from_be(data[4], data[5]),
                },
            )
        } else {
            Err(CrsfParsingError::InvalidPayloadLength)
        }
    }
}


/// Decoding the payload this record encodes gives the record back.
pub proof fn lemma_attitude_round_trip(x: Attitude, r: Result<Attitude, CrsfParsingError>)
    requires
        Attitude::from_bytes_post(x.spec_to_bytes(), r),
    ensures
        r == Ok::<Attitude, CrsfParsingError>(x),
{
    broadcast use crate::wire::lemma_u16_be_round_trip, crate::wire::lemma_i16_bits_round_trip;

}

} // verus!

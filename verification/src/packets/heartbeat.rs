use crate::error::CrsfParsingError;
use crate::packets::CrsfPacket;
use crate::packets::PacketType;
use crate::wire::{i16_bits, i16_from_be, i16_of_bits, i16_to_be, u16_hi, u16_lo, u16_of_be};
use vstd::prelude::*;

verus! {

/// A device's periodic sign of life.
#[derive(Clone, Debug, PartialEq)]
pub struct Heartbeat {
    /// Origin device address.
    pub origin_address: i16,
}

impl Heartbeat {
    pub const MIN_PAYLOAD_SIZE: usize = 2;
}

impl CrsfPacket for Heartbeat {
    open spec fn spec_packet_type() -> PacketType {
        PacketType::Heartbeat
    }

    open spec fn spec_min_payload_size() -> usize {
        2
    }

    open spec fn spec_to_bytes(self) -> Seq<u8> {
        seq![u16_hi(i16_bits(self.origin_address)), u16_lo(i16_bits(self.origin_address))]
    }

    open spec fn from_bytes_post(data: Seq<u8>, r: Result<Self, CrsfParsingError>) -> bool {
        r == ({
            if data.len() == 2 {
                Ok(Heartbeat { origin_address: i16_of_bits(u16_of_be(data[0], data[1])) })
            } else {
                Err(CrsfParsingError::InvalidPayloadLength)
            }
        })
    }

    fn packet_type() -> (t: PacketType) {
        PacketType::Heartbeat
    }

    fn min_payload_size() -> (n: usize) {
        2
    }

    fn to_bytes(&self, buffer: &mut [u8]) -> (r: Result<usize, CrsfParsingError>) {
        if buffer.len() < 2 {
            return Err(CrsfParsingError::BufferOverflow);
        }
        let (hi, lo) = i16_to_be(self.origin_address);
        buffer[0] = hi;
        buffer[1] = lo;
        proof {
            assert(buffer@ =~= self.spec_to_bytes() + old(buffer)@.skip(2));
        }
        Ok(2)
    }

    fn from_bytes(data: &[u8]) -> (r: Result<Self, CrsfParsingError>) {
        if data.len() == 2 {
            Ok(Self { origin_address: i16_from_be(data[0], data[1]) })
        } else {
            Err(CrsfParsingError::InvalidPayloadLength)
        }
    }
}


/// Decoding the payload this record encodes gives the record back.
pub proof fn lemma_heartbeat_round_trip(x: Heartbeat, r: Result<Heartbeat, CrsfParsingError>)
    requires
        Heartbeat::from_bytes_post(x.spec_to_bytes(), r),
    ensures
        r == Ok::<Heartbeat, CrsfParsingError>(x),
{
    broadcast use crate::wire::lemma_u16_be_round_trip, crate::wire::lemma_i16_bits_round_trip;

}

} // verus!

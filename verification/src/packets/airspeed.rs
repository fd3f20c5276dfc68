use crate::error::CrsfParsingError;
use crate::packets::CrsfPacket;
use crate::packets::PacketType;
use crate::wire::{u16_from_be, u16_hi, u16_lo, u16_of_be, u16_to_be};
use vstd::prelude::*;

verus! {

/// Airspeed telemetry from the craft.
#[derive(Default, Clone, Debug, PartialEq)]
pub struct AirSpeed {
    /// Airspeed in 0.1 km/h (hectometers per hour).
    pub speed: u16,
}

impl AirSpeed {
    pub const MIN_PAYLOAD_SIZE: usize = 2;

    pub fn new(speed: u16) -> (r: Self)
        ensures
            r == (AirSpeed { speed }),
    {
        Self { speed }
    }
}

impl CrsfPacket for AirSpeed {
    open spec fn spec_packet_type() -> PacketType {
        PacketType::AirSpeed
    }

    open spec fn spec_min_payload_size() -> usize {
        2
    }

    open spec fn spec_to_bytes(self) -> Seq<u8> {
        seq![u16_hi(self.speed), u16_lo(self.speed)]
    }

    open spec fn from_bytes_post(data: Seq<u8>, r: Result<Self, CrsfParsingError>) -> bool {
        r == ({
            if data.len() >= 2 {
                Ok(AirSpeed { speed: u16_of_be(data[0], data[1]) })
            } else {
                Err(CrsfParsingError::InvalidPayloadLength)
            }
        })
    }

    fn packet_type() -> (t: PacketType) {
        PacketType::AirSpeed
    }

    fn min_payload_size() -> (n: usize) {
        2
    }

    fn to_bytes(&self, buffer: &mut [u8]) -> (r: Result<usize, CrsfParsingError>) {
        if buffer.len() < 2 {
            return Err(CrsfParsingError::BufferOverflow);
        }
        let (hi, lo) = u16_to_be(self.speed);
        buffer[0] = hi;
        buffer[1] = lo;
        proof {
            assert(buffer@ =~= self.spec_to_bytes() + old(buffer)@.skip(2));
        }
        Ok(2)
    }

    fn from_bytes(data: &[u8]) -> (r: Result<Self, CrsfParsingError>) {
        if data.len() >= 2 {
            Ok(Self { speed: u16_from_be(data[0], data[1]) })
        } else {
            Err(CrsfParsingError::InvalidPayloadLength)
        }
    }
}


/// Decoding the payload this record encodes gives the record back.
pub proof fn lemma_airspeed_round_trip(x: AirSpeed, r: Result<AirSpeed, CrsfParsingError>)
    requires
        AirSpeed::from_bytes_post(x.spec_to_bytes(), r),
    ensures
        r == Ok::<AirSpeed, CrsfParsingError>(x),
{
    broadcast use crate::wire::lemma_u16_be_round_trip;

}

} // verus!

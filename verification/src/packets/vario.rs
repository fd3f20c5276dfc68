use crate::error::CrsfParsingError;
use crate::packets::CrsfPacket;
use crate::packets::PacketType;
use crate::wire::{i16_bits, i16_from_be, i16_of_bits, i16_to_be, u16_hi, u16_lo, u16_of_be};
use vstd::prelude::*;

verus! {

/// Variometer telemetry from the craft.
#[derive(Clone, Debug, PartialEq)]
pub struct VariometerSensor {
    /// Vertical speed in cm/s.
    pub v_speed: i16,
}

impl VariometerSensor {
    pub const MIN_PAYLOAD_SIZE: usize = 2;

    pub fn new(v_speed: i16) -> (r: Result<Self, CrsfParsingError>)
        ensures
            r == Ok::<Self, CrsfParsingError>(VariometerSensor { v_speed }),
    {
        Ok(Self { v_speed })
    }
}

impl CrsfPacket for VariometerSensor {
    open spec fn spec_packet_type() -> PacketType {
        PacketType::Vario
    }

    open spec fn spec_min_payload_size() -> usize {
        2
    }

    open spec fn spec_to_bytes(self) -> Seq<u8> {
        seq![u16_hi(i16_bits(self.v_speed)), u16_lo(i16_bits(self.v_speed))]
    }

    open spec fn from_bytes_post(data: Seq<u8>, r: Result<Self, CrsfParsingError>) -> bool {
        r == ({
            if data.len() == 2 {
                Ok(VariometerSensor { v_speed: i16_of_bits(u16_of_be(data[0], data[1])) })
            } else {
                Err(CrsfParsingError::InvalidPayloadLength)
            }
        })
    }

    fn packet_type() -> (t: PacketType) {
        PacketType::Vario
    }

    fn min_payload_size() -> (n: usize) {
        2
    }

    fn to_bytes(&self, buffer: &mut [u8]) -> (r: Result<usize, CrsfParsingError>) {
        if buffer.len() < 2 {
            return Err(CrsfParsingError::BufferOverflow);
        }
        let (hi, lo) = i16_to_be(self.v_speed);
        buffer[0] = hi;
        buffer[1] = lo;
        proof {
            assert(buffer@ =~= self.spec_to_bytes() + old(buffer)@.skip(2));
        }
        Ok(2)
    }

    fn from_bytes(data: &[u8]) -> (r: Result<Self, CrsfParsingError>) {
        if data.len() == 2 {
            Ok(Self { v_speed: i16_from_be(data[0], data[1]) })
        } else {
            Err(CrsfParsingError::InvalidPayloadLength)
        }
    }
}


/// Decoding the payload this record encodes gives the record back.
pub proof fn lemma_vario_round_trip(
    x: VariometerSensor,
    r: Result<VariometerSensor, CrsfParsingError>,
)
    requires
        VariometerSensor::from_bytes_post(x.spec_to_bytes(), r),
    ensures
        r == Ok::<VariometerSensor, CrsfParsingError>(x),
{
    broadcast use crate::wire::lemma_u16_be_round_trip, crate::wire::lemma_i16_bits_round_trip;

}

} // verus!

use crate::error::CrsfParsingError;
use crate::packets::CrsfPacket;
use crate::packets::PacketType;
use crate::wire::{
    i16_bits, i16_from_be, i16_of_bits, i16_to_be, u16_from_be, u16_hi, u16_lo, u16_of_be,
    u16_to_be,
};
use vstd::prelude::*;

verus! {

/// The time of a GPS pulse, for synchronization.
#[derive(Clone, Debug, PartialEq)]
pub struct GpsTime {
    pub year: i16,
    pub month: u8,
    pub day: u8,
    pub hour: u8,
    pub minute: u8,
    pub second: u8,
    pub millisecond: u16,
}

impl GpsTime {
    pub const MIN_PAYLOAD_SIZE: usize = 9;
}

impl CrsfPacket for GpsTime {
    open spec fn spec_packet_type() -> PacketType {
        PacketType::GpsTime
    }

    open spec fn spec_min_payload_size() -> usize {
        9
    }

    open spec fn spec_to_bytes(self) -> Seq<u8> {
        seq![
            u16_hi(i16_bits(self.year)),
            u16_lo(i16_bits(self.year)),
            self.month,
            self.day,
            self.hour,
            self.minute,
            self.second,
            u16_hi(self.millisecond),
            u16_lo(self.millisecond),
        ]
    }

    open spec fn from_bytes_post(data: Seq<u8>, r: Result<Self, CrsfParsingError>) -> bool {
        r == ({
            if data.len() == 9 {
                Ok(
                    GpsTime {
                        year: i16_of_bits(u16_of_be(data[0], data[1])),
                        month: data[2],
                        day: data[3],
                        hour: data[4],
                        minute: data[5],
                        second: data[6],
                        millisecond: u16_of_be(data[7], data[8]),
                    },
                )
            } else {
                Err(CrsfParsingError::InvalidPayloadLength)
            }
        })
    }

    fn packet_type() -> (t: PacketType) {
        PacketType::GpsTime
    }

    fn min_payload_size() -> (n: usize) {
        9
    }

    fn to_bytes(&self, buffer: &mut [u8]) -> (r: Result<usize, CrsfParsingError>) {
        if buffer.len() < 9 {
            return Err(CrsfParsingError::BufferOverflow);
        }
        let (y0, y1) = i16_to_be(self.year);
        let (m0, m1) = u16_to_be(self.millisecond);
        buffer[0] = y0;
        buffer[1] = y1;
        buffer[2] = self.month;
        buffer[3] = self.day;
        buffer[4] = self.hour;
        buffer[5] = self.minute;
        buffer[6] = self.second;
        buffer[7] = m0;
        buffer[8] = m1;
        proof {
            assert(buffer@ =~= self.spec_to_bytes() + old(buffer)@.skip(9));
        }
        Ok(9)
    }

    fn from_bytes(data: &[u8]) -> (r: Result<Self, CrsfParsingError>) {
        if data.len() == 9 {
            Ok(
                Self {
                    year: i16_from_be(data[0], data[1]),
                    month: data[2],
                    day: data[3],
                    hour: data[4],
                    minute: data[5],
                    second: data[6],
                    millisecond: u16_from_be(data[7], data[8]),
                },
            )
        } else {
            Err(CrsfParsingError::InvalidPayloadLength)
        }
    }
}


/// Decoding the payload this record encodes gives the record back.
pub proof fn lemma_gps_time_round_trip(x: GpsTime, r: Result<GpsTime, CrsfParsingError>)
    requires
        GpsTime::from_bytes_post(x.spec_to_bytes(), r),
    ensures
        r == Ok::<GpsTime, CrsfParsingError>(x),
{
    broadcast use crate::wire::lemma_u16_be_round_trip, crate::wire::lemma_i16_bits_round_trip;

}

} // verus!

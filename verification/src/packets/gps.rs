use crate::error::CrsfParsingError;
use crate::packets::CrsfPacket;
use crate::packets::PacketType;
use crate::wire::{
    i16_bits, i32_bits, i32_from_be, i32_of_bits, i32_to_be, u16_from_be, u16_hi, u16_lo,
    u16_of_be, u16_to_be, u32_byte, u32_of_be,
};
use vstd::prelude::*;

verus! {

/// A GPS position fix.
#[derive(Clone, Debug, PartialEq)]
pub struct Gps {
    /// Latitude in degrees * 10^7.
    pub latitude: i32,
    /// Longitude in degrees * 10^7.
    pub longitude: i32,
    /// Groundspeed in 0.01 km/h units.
    pub groundspeed: u16,
    /// Heading in 0.01 degree units.
    pub heading: u16,
    /// Altitude in meters with a 1000 m offset.
    pub altitude: u16,
    /// Number of satellites in view.
    pub satellites: u8,
}

impl Gps {
    pub const MIN_PAYLOAD_SIZE: usize = 15;
}

impl CrsfPacket for Gps {
    open spec fn spec_packet_type() -> PacketType {
        PacketType::Gps
    }

    open spec fn spec_min_payload_size() -> usize {
        15
    }

    open spec fn spec_to_bytes(self) -> Seq<u8> {
        seq![
            u32_byte(i32_bits(self.latitude), 0),
            u32_byte(i32_bits(self.latitude), 1),
            u32_byte(i32_bits(self.latitude), 2),
            u32_byte(i32_bits(self.latitude), 3),
            u32_byte(i32_bits(self.longitude), 0),
            u32_byte(i32_bits(self.longitude), 1),
            u32_byte(i32_bits(self.longitude), 2),
            u32_byte(i32_bits(self.longitude), 3),
            u16_hi(self.groundspeed),
            u16_lo(self.groundspeed),
            u16_hi(self.heading),
            u16_lo(self.heading),
            u16_hi(self.altitude),
            u16_lo(self.altitude),
            self.satellites,
        ]
    }

    open spec fn from_bytes_post(data: Seq<u8>, r: Result<Self, CrsfParsingError>) -> bool {
        r == ({
            if data.len() >= 15 {
                Ok(
                    Gps {
                        latitude: i32_of_bits(u32_of_be(data[0], data[1], data[2], data[3])),
                        longitude: i32_of_bits(u32_of_be(data[4], data[5], data[6], data[7])),
                        groundspeed: u16_of_be(data[8], data[9]),
                        heading: u16_of_be(data[10], data[11]),
                        altitude: u16_of_be(data[12], data[13]),
                        satellites: data[14],
                    },
                )
            } else {
                Err(CrsfParsingError::InvalidPayloadLength)
            }
        })
    }

    fn packet_type() -> (t: PacketType) {
        PacketType::Gps
    }

    fn min_payload_size() -> (n: usize) {
        15
    }

    fn to_bytes(&self, buffer: &mut [u8]) -> (r: Result<usize, CrsfParsingError>) {
        if buffer.len() < 15 {
            return Err(CrsfParsingError::BufferOverflow);
        }
        let (a0, a1, a2, a3) = i32_to_be(self.latitude);
        let (b0, b1, b2, b3) = i32_to_be(self.longitude);
        let (g0, g1) = u16_to_be(self.groundspeed);
        let (h0, h1) = u16_to_be(self.heading);
        let (t0, t1) = u16_to_be(self.altitude);
        buffer[0] = a0;
        buffer[1] = a1;
        buffer[2] = a2;
        buffer[3] = a3;
        buffer[4] = b0;
        buffer[5] = b1;
        buffer[6] = b2;
        buffer[7] = b3;
        buffer[8] = g0;
        buffer[9] = g1;
        buffer[10] = h0;
        buffer[11] = h1;
        buffer[12] = t0;
        buffer[13] = t1;
        buffer[14] = self.satellites;
        proof {
            assert(buffer@ =~= self.spec_to_bytes() + old(buffer)@.skip(15));
        }
        Ok(15)
    }

    fn from_bytes(data: &[u8]) -> (r: Result<Self, CrsfParsingError>) {
        if data.len() >= 15 {
            Ok(
                Self {
                    latitude: i32_from_be(data[0], data[1], data[2], data[3]),
                    longitude: i32_from_be(data[4], data[5], data[6], data[7]),
                    groundspeed: u16_from_be(data[8], data[9]),
                    heading: u16_from_be(data[10], data[11]),
                    altitude: u16_from_be(data[12], data[13]),
                    satellites: data[14],
                },
            )
        } else {
            Err(CrsfParsingError::InvalidPayloadLength)
        }
    }
}


/// Decoding the payload this record encodes gives the record back.
pub proof fn lemma_gps_round_trip(x: Gps, r: Result<Gps, CrsfParsingError>)
    requires
        Gps::from_bytes_post(x.spec_to_bytes(), r),
    ensures
        r == Ok::<Gps, CrsfParsingError>(x),
{
    broadcast use crate::wire::lemma_u16_be_round_trip, crate::wire::lemma_u32_be_round_trip,
        crate::wire::lemma_i32_bits_round_trip;

}

} // verus!

use crate::error::CrsfParsingError;
use crate::packets::CrsfPacket;
use crate::packets::PacketType;
use crate::wire::{i16_bits, i16_from_be, i16_of_bits, i16_to_be, u16_hi, u16_lo, u16_of_be};
use vstd::prelude::*;

verus! {

/// An extended GPS fix with velocities and accuracy estimates.
#[derive(Clone, Debug, PartialEq)]
pub struct GpsExtended {
    /// Current GPS fix quality.
    pub fix_type: u8,
    /// Northward speed (north = positive) in cm/s.
    pub n_speed: i16,
    /// Eastward speed (east = positive) in cm/s.
    pub e_speed: i16,
    /// Vertical speed (up = positive) in cm/s.
    pub v_speed: i16,
    /// Horizontal speed accuracy in cm/s.
    pub h_speed_acc: i16,
    /// Heading accuracy in 0.1 degrees.
    pub track_acc: i16,
    /// Height above GPS ellipsoid (not MSL) in meters.
    pub alt_ellipsoid: i16,
    /// Horizontal accuracy in cm.
    pub h_acc: i16,
    /// Vertical accuracy in cm.
    pub v_acc: i16,
    /// Reserved for future use.
    pub reserved: u8,
    /// Horizontal dilution of precision in 0.1 units.
    pub h_dop: u8,
    /// Vertical dilution of precision in 0.1 units.
    pub v_dop: u8,
}

impl GpsExtended {
    pub const MIN_PAYLOAD_SIZE: usize = 20;

    pub fn new(
        fix_type: u8,
        n_speed: i16,
        e_speed: i16,
        v_speed: i16,
        h_speed_acc: i16,
        track_acc: i16,
        alt_ellipsoid: i16,
        h_acc: i16,
        v_acc: i16,
        reserved: u8,
        h_dop: u8,
        v_dop: u8,
    ) -> (r: Result<Self, CrsfParsingError>)
        ensures
            r == Ok::<Self, CrsfParsingError>(
                GpsExtended {
                    fix_type,
                    n_speed,
                    e_speed,
                    v_speed,
                    h_speed_acc,
                    track_acc,
                    alt_ellipsoid,
                    h_acc,
                    v_acc,
                    reserved,
                    h_dop,
                    v_dop,
                },
            ),
    {
        Ok(
            Self {
                fix_type,
                n_speed,
                e_speed,
                v_speed,
                h_speed_acc,
                track_acc,
                alt_ellipsoid,
                h_acc,
                v_acc,
                reserved,
                h_dop,
                v_dop,
            },
        )
    }
}

impl CrsfPacket for GpsExtended {
    open spec fn spec_packet_type() -> PacketType {
        PacketType::GpsExtended
    }

    open spec fn spec_min_payload_size() -> usize {
        20
    }

    open spec fn spec_to_bytes(self) -> Seq<u8> {
        seq![
            self.fix_type,
            u16_hi(i16_bits(self.n_speed)),
            u16_lo(i16_bits(self.n_speed)),
            u16_hi(i16_bits(self.e_speed)),
            u16_lo(i16_bits(self.e_speed)),
            u16_hi(i16_bits(self.v_speed)),
            u16_lo(i16_bits(self.v_speed)),
            u16_hi(i16_bits(self.h_speed_acc)),
            u16_lo(i16_bits(self.h_speed_acc)),
            u16_hi(i16_bits(self.track_acc)),
            u16_lo(i16_bits(self.track_acc)),
            u16_hi(i16_bits(self.alt_ellipsoid)),
            u16_lo(i16_bits(self.alt_ellipsoid)),
            u16_hi(i16_bits(self.h_acc)),
            u16_lo(i16_bits(self.h_acc)),
            u16_hi(i16_bits(self.v_acc)),
            u16_lo(i16_bits(self.v_acc)),
            self.reserved,
            self.h_dop,
            self.v_dop,
        ]
    }

    open spec fn from_bytes_post(data: Seq<u8>, r: Result<Self, CrsfParsingError>) -> bool {
        r == ({
            if data.len() == 20 {
                Ok(
                    GpsExtended {
                        fix_type: data[0],
                        n_speed: i16_of_bits(u16_of_be(data[1], data[2])),
                        e_speed: i16_of_bits(u16_of_be(data[3], data[4])),
                        v_speed: i16_of_bits(u16_of_be(data[5], data[6])),
                        h_speed_acc: i16_of_bits(u16_of_be(data[7], data[8])),
                        track_acc: i16_of_bits(u16_of_be(data[9], data[10])),
                        alt_ellipsoid: i16_of_bits(u16_of_be(data[11], data[12])),
                        h_acc: i16_of_bits(u16_of_be(data[13], data[14])),
                        v_acc: i16_of_bits(u16_of_be(data[15], data[16])),
                        reserved: data[17],
                        h_dop: data[18],
                        v_dop: data[19],
                    },
                )
            } else {
                Err(CrsfParsingError::InvalidPayloadLength)
            }
        })
    }

    fn packet_type() -> (t: PacketType) {
        PacketType::GpsExtended
    }

    fn min_payload_size() -> (n: usize) {
        20
    }

    fn to_bytes(&self, buffer: &mut [u8]) -> (r: Result<usize, CrsfParsingError>) {
        if buffer.len() < 20 {
            return Err(CrsfParsingError::BufferOverflow);
        }
        let (n0, n1) = i16_to_be(self.n_speed);
        let (e0, e1) = i16_to_be(self.e_speed);
        let (v0, v1) = i16_to_be(self.v_speed);
        let (hs0, hs1) = i16_to_be(self.h_speed_acc);
        let (t0, t1) = i16_to_be(self.track_acc);
        let (a0, a1) = i16_to_be(self.alt_ellipsoid);
        let (h0, h1) = i16_to_be(self.h_acc);
        let (va0, va1) = i16_to_be(self.v_acc);
        buffer[0] = self.fix_type;
        buffer[1] = n0;
        buffer[2] = n1;
        buffer[3] = e0;
        buffer[4] = e1;
        buffer[5] = v0;
        buffer[6] = v1;
        buffer[7] = hs0;
        buffer[8] = hs1;
        buffer[9] = t0;
        buffer[10] = t1;
        buffer[11] = a0;
        buffer[12] = a1;
        buffer[13] = h0;
        buffer[14] = h1;
        buffer[15] = va0;
        buffer[16] = va1;
        buffer[17] = self.reserved;
        buffer[18] = self.h_dop;
        buffer[19] = self.v_dop;
        proof {
            assert(buffer@ =~= self.spec_to_bytes() + old(buffer)@.skip(20));
        }
        Ok(20)
    }

    fn from_bytes(data: &[u8]) -> (r: Result<Self, CrsfParsingError>) {
        if data.len() == 20 {
            Ok(
                Self {
                    fix_type: data[0],
                    n_speed: i16_from_be(data[1], data[2]),
                    e_speed: i16_from_be(data[3], data[4]),
                    v_speed: i16_from_be(data[5], data[6]),
                    h_speed_acc: i16_from_be(data[7], data[8]),
                    track_acc: i16_from_be(data[9], data[10]),
                    alt_ellipsoid: i16_from_be(data[11], data[12]),
                    h_acc: i16_from_be(data[13], data[14]),
                    v_acc: i16_from_be(data[15], data[16]),
                    reserved: data[17],
                    h_dop: data[18],
                    v_dop: data[19],
                },
            )
        } else {
            Err(CrsfParsingError::InvalidPayloadLength)
        }
    }
}


/// Decoding the payload this record encodes gives the record back.
pub proof fn lemma_gps_extended_round_trip(x: GpsExtended, r: Result<GpsExtended, CrsfParsingError>)
    requires
        GpsExtended::from_bytes_post(x.spec_to_bytes(), r),
    ensures
        r == Ok::<GpsExtended, CrsfParsingError>(x),
{
    broadcast use crate::wire::lemma_u16_be_round_trip, crate::wire::lemma_i16_bits_round_trip;

}

} // verus!

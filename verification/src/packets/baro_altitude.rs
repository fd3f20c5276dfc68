use crate::error::CrsfParsingError;
use crate::packets::CrsfPacket;
use crate::packets::PacketType;
use crate::wire::{i8_bits, i8_from_bits, i8_of_bits, i8_to_bits, u16_from_be, u16_hi, u16_lo,
    u16_of_be, u16_to_be};
use vstd::prelude::*;

verus! {

/// Barometric altitude and vertical speed in three bytes.
///
/// The altitude field has a mode bit: with the high bit set the low
/// fifteen bits are meters without offset, with it clear the whole value
/// is decimeters with a 1000 m offset.
#[derive(Default, Clone, Debug, PartialEq)]
pub struct BaroAltitude {
    /// Packed altitude above the calibration point; see `get_altitude_dm`.
    pub altitude_packed: u16,
    /// Logarithmically packed vertical speed.
    pub vertical_speed_packed: i8,
}

/// The decimeters a packed altitude stands for: meters times ten when the
/// mode bit is set, else the value less the 10000 dm offset.
pub open spec fn spec_altitude_dm(packed: u16) -> i32 {
    (if packed >= 0x8000 {
        (packed - 0x8000) * 10
    } else {
        packed - 10000
    }) as i32
}

/// The packed form of an altitude in decimeters: clamped to 0 below the
/// offset and to 0xFFFE above the largest representable altitude; exact
/// decimeters below the threshold, rounded meters with the mode bit above.
pub open spec fn spec_altitude_packed(altitude_dm: int) -> u16 {
    if altitude_dm < -10000 {
        0
    } else if altitude_dm > 0x7ffe * 10 - 5 {
        0xfffe
    } else if altitude_dm < 0x8000 - 10000 {
        (altitude_dm + 10000) as u16
    } else {
        ((altitude_dm + 5) / 10 + 0x8000) as u16
    }
}

/// Packing an altitude that lies in the exact decimeter range loses
/// nothing: unpacking gives the same decimeters back.
pub proof fn lemma_altitude_dm_round_trip(altitude_dm: int)
    requires
        -10000 <= altitude_dm < 0x8000 - 10000,
    ensures
        spec_altitude_dm(spec_altitude_packed(altitude_dm)) == altitude_dm,
{
}

/// Packing an altitude in the meter range recovers the altitude to within
/// five decimeters.
pub proof fn lemma_altitude_m_round_trip(altitude_dm: int)
    requires
        0x8000 - 10000 <= altitude_dm <= 0x7ffe * 10 - 5,
    ensures
        -5 <= spec_altitude_dm(spec_altitude_packed(altitude_dm)) - altitude_dm <= 5,
{
    let q = (altitude_dm + 5) / 10;
    assert(10 * q <= altitude_dm + 5 < 10 * (q + 1)) by (nonlinear_arith)
        requires
            q == (altitude_dm + 5) / 10 && altitude_dm >= 0,
    ;
    assert(q < 0x8000) by (nonlinear_arith)
        requires
            q == (altitude_dm + 5) / 10 && altitude_dm <= 0x7ffe * 10 - 5,
    ;
}

impl BaroAltitude {
    pub const MIN_PAYLOAD_SIZE: usize = 3;

    pub fn new(altitude_packed: u16, vertical_speed_packed: i8) -> (r: Result<
        Self,
        CrsfParsingError,
    >)
        ensures
            r == Ok::<Self, CrsfParsingError>(
                BaroAltitude { altitude_packed, vertical_speed_packed },
            ),
    {
        Ok(Self { altitude_packed, vertical_speed_packed })
    }

    /// The altitude in decimeters above the -1000 m floor.
    pub fn get_altitude_dm(&self) -> (r: i32)
        ensures
            r == spec_altitude_dm(self.altitude_packed),
    {
        let p = self.altitude_packed;
        if (p & 0x8000) != 0 {
            proof {
                assert(p >= 0x8000 && (p & 0x7fff) == p - 0x8000) by (bit_vector)
                    requires
                        p & 0x8000 != 0,
                ;
            }
            ((p & 0x7fff) as i32) * 10
        } else {
            proof {
                assert(p < 0x8000) by (bit_vector)
                    requires
                        p & 0x8000 == 0,
                ;
            }
            (p as i32) - 10000
        }
    }

    /// Packs an altitude in decimeters, clamping at both ends of the
    /// representable range.
    pub fn get_altitude_packed(altitude_dm: i32) -> (r: u16)
        ensures
            r == spec_altitude_packed(altitude_dm as int),
    {
        if altitude_dm < -10000 {
            0
        } else if altitude_dm > 0x7ffe * 10 - 5 {
            0xfffe
        } else if altitude_dm < 0x8000 - 10000 {
            (altitude_dm + 10000) as u16
        } else {
            let q = ((altitude_dm + 5) / 10) as u16;
            proof {
                assert((altitude_dm + 5) / 10 == (altitude_dm + 5) as int / 10) by (nonlinear_arith)
                    requires
                        altitude_dm >= 0,
                ;
                assert(q < 0x8000) by (nonlinear_arith)
                    requires
                        q == (altitude_dm + 5) as int / 10 && altitude_dm <= 0x7ffe * 10 - 5
                            && altitude_dm >= 0,
                ;
                assert(q | 0x8000 == q + 0x8000) by (bit_vector)
                    requires
                        q < 0x8000,
                ;
            }
            q | 0x8000
        }
    }
}

impl CrsfPacket for BaroAltitude {
    open spec fn spec_packet_type() -> PacketType {
        PacketType::BaroAltitude
    }

    open spec fn spec_min_payload_size() -> usize {
        3
    }

    open spec fn spec_to_bytes(self) -> Seq<u8> {
        seq![
            u16_hi(self.altitude_packed),
            u16_lo(self.altitude_packed),
            i8_bits(self.vertical_speed_packed),
        ]
    }

    open spec fn from_bytes_post(data: Seq<u8>, r: Result<Self, CrsfParsingError>) -> bool {
        r == ({
            if data.len() == 3 {
                Ok(
                    BaroAltitude {
                        altitude_packed: u16_of_be(data[0], data[1]),
                        vertical_speed_packed: i8_of_bits(data[2]),
                    },
                )
            } else {
                Err(CrsfParsingError::InvalidPayloadLength)
            }
        })
    }

    fn packet_type() -> (t: PacketType) {
        PacketType::BaroAltitude
    }

    fn min_payload_size() -> (n: usize) {
        3
    }

    fn to_bytes(&self, buffer: &mut [u8]) -> (r: Result<usize, CrsfParsingError>) {
        if buffer.len() < 3 {
            return Err(CrsfParsingError::BufferOverflow);
        }
        let (hi, lo) = u16_to_be(self.altitude_packed);
        buffer[0] = hi;
        buffer[1] = lo;
        buffer[2] = i8_to_bits(self.vertical_speed_packed);
        proof {
            assert(buffer@ =~= self.spec_to_bytes() + old(buffer)@.skip(3));
        }
        Ok(3)
    }

    fn from_bytes(data: &[u8]) -> (r: Result<Self, CrsfParsingError>) {
        if data.len() == 3 {
            Ok(
                Self {
                    altitude_packed: u16_from_be(data[0], data[1]),
                    vertical_speed_packed: i8_from_bits(data[2]),
                },
            )
        } else {
            Err(CrsfParsingError::InvalidPayloadLength)
        }
    }
}


/// Decoding the payload this record encodes gives the record back.
pub proof fn lemma_baro_altitude_round_trip(
    x: BaroAltitude,
    r: Result<BaroAltitude, CrsfParsingError>,
)
    requires
        BaroAltitude::from_bytes_post(x.spec_to_bytes(), r),
    ensures
        r == Ok::<BaroAltitude, CrsfParsingError>(x),
{
    broadcast use crate::wire::lemma_u16_be_round_trip, crate::wire::lemma_i8_bits_round_trip;

}

} // verus!

use crate::error::CrsfParsingError;
use crate::packets::CrsfPacket;
use crate::packets::PacketType;
use crate::wire::{
    i16_bits, i16_from_be, i16_of_bits, i16_to_be, u16_hi, u16_lo, u16_of_be, u32_byte,
    u32_from_be, u32_of_be, u32_to_be,
};
use vstd::prelude::*;

verus! {

/// Battery telemetry.
///
/// The capacity travels as a 24-bit field: encoding keeps only the low
/// three bytes of `capacity_used`.
#[derive(Clone, Debug, PartialEq)]
pub struct Battery {
    /// Voltage in 10 mV units.
    pub voltage: i16,
    /// Current in 10 mA units.
    pub current: i16,
    /// Capacity used in mAh; a 24-bit value on the wire.
    pub capacity_used: u32,
    /// Battery remaining in percent.
    pub remaining: u8,
}

impl Battery {
    pub const MIN_PAYLOAD_SIZE: usize = 8;
}

impl CrsfPacket for Battery {
    open spec fn spec_packet_type() -> PacketType {
        PacketType::BatterySensor
    }

    open spec fn spec_min_payload_size() -> usize {
        8
    }

    open spec fn spec_to_bytes(self) -> Seq<u8> {
        seq![
            u16_hi(i16_bits(self.voltage)),
            u16_lo(i16_bits(self.voltage)),
            u16_hi(i16_bits(self.current)),
            u16_lo(i16_bits(self.current)),
            u32_byte(self.capacity_used, 1),
            u32_byte(self.capacity_used, 2),
            u32_byte(self.capacity_used, 3),
            self.remaining,
        ]
    }

    open spec fn from_bytes_post(data: Seq<u8>, r: Result<Self, CrsfParsingError>) -> bool {
        r == ({
            if data.len() == 8 {
                Ok(
                    Battery {
                        voltage: i16_of_bits(u16_of_be(data[0], data[1])),
                        current: i16_of_bits(u16_of_be(data[2], data[3])),
                        capacity_used: u32_of_be(0, data[4], data[5], data[6]),
                        remaining: data[7],
                    },
                )
            } else {
                Err(CrsfParsingError::InvalidPayloadLength)
            }
        })
    }

    fn packet_type() -> (t: PacketType) {
        PacketType::BatterySensor
    }

    fn min_payload_size() -> (n: usize) {
        8
    }

    fn to_bytes(&self, buffer: &mut [u8]) -> (r: Result<usize, CrsfParsingError>) {
        if buffer.len() < 8 {
            return Err(CrsfParsingError::BufferOverflow);
        }
        let (v0, v1) = i16_to_be(self.voltage);
        let (c0, c1) = i16_to_be(self.current);
        let (_, k1, k2, k3) = u32_to_be(self.capacity_used);
        buffer[0] = v0;
        buffer[1] = v1;
        buffer[2] = c0;
        buffer[3] = c1;
        buffer[4] = k1;
        buffer[5] = k2;
        buffer[6] = k3;
        buffer[7] = self.remaining;
        proof {
            assert(buffer@ =~= self.spec_to_bytes() + old(buffer)@.skip(8));
        }
        Ok(8)
    }

    fn from_bytes(data: &[u8]) -> (r: Result<Self, CrsfParsingError>) {
        if data.len() == 8 {
            Ok(
                Self {
                    voltage: i16_from_be(data[0], data[1]),
                    current: i16_from_be(data[2], data[3]),
                    capacity_used: u32_from_be(0, data[4], data[5], data[6]),
                    remaining: data[7],
                },
            )
        } else {
            Err(CrsfParsingError::InvalidPayloadLength)
        }
    }
}


/// Decoding the payload this record encodes gives the record back; the
/// capacity must fit the 24-bit wire field.
pub proof fn lemma_battery_round_trip(x: Battery, r: Result<Battery, CrsfParsingError>)
    requires
        x.capacity_used < 0x100_0000,
        Battery::from_bytes_post(x.spec_to_bytes(), r),
    ensures
        r == Ok::<Battery, CrsfParsingError>(x),
{
    broadcast use crate::wire::lemma_u16_be_round_trip, crate::wire::lemma_i16_bits_round_trip,
        crate::wire::lemma_u24_be_round_trip;

}

} // verus!

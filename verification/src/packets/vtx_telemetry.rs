use crate::error::CrsfParsingError;
use crate::packets::CrsfPacket;
use crate::packets::PacketType;
use crate::wire::{u16_from_be, u16_hi, u16_lo, u16_of_be, u16_to_be};
use vstd::prelude::*;

verus! {

/// Video transmitter telemetry.
///
/// Pit mode flag, control and switch share one byte on the wire:
/// bit 0 the flag, bits 1-2 the control, bits 3-6 the switch.
#[derive(Clone, Debug, PartialEq)]
pub struct VtxTelemetry {
    /// Origin device address.
    pub origin_address: u8,
    /// VTX power in dBm.
    pub power_dbm: u8,
    /// VTX frequency in MHz.
    pub frequency_mhz: u16,
    /// Pit mode status.
    pub pit_mode: bool,
    /// Pit mode control.
    pub pitmode_control: u8,
    /// Pit mode switch.
    pub pitmode_switch: u8,
}

/// The byte that carries the pit mode flag, control and switch.
pub open spec fn pit_byte_of(pit_mode: bool, control: u8, switch: u8) -> u8 {
    ((if pit_mode {
        1u8
    } else {
        0u8
    }) | (control << 1) | (switch << 3)) as u8
}

impl VtxTelemetry {
    pub const MIN_PAYLOAD_SIZE: usize = 5;
}

impl CrsfPacket for VtxTelemetry {
    open spec fn spec_packet_type() -> PacketType {
        PacketType::VtxTelemetry
    }

    open spec fn spec_min_payload_size() -> usize {
        5
    }

    open spec fn spec_to_bytes(self) -> Seq<u8> {
        seq![
            self.origin_address,
            self.power_dbm,
            u16_hi(self.frequency_mhz),
            u16_lo(self.frequency_mhz),
            pit_byte_of(self.pit_mode, self.pitmode_control, self.pitmode_switch),
        ]
    }

    open spec fn from_bytes_post(data: Seq<u8>, r: Result<Self, CrsfParsingError>) -> bool {
        r == ({
            if data.len() >= 5 {
                Ok(
                    VtxTelemetry {
                        origin_address: data[0],
                        power_dbm: data[1],
                        frequency_mhz: u16_of_be(data[2], data[3]),
                        pit_mode: (data[4] & 1) != 0,
                        pitmode_control: (data[4] >> 1) & 3,
                        pitmode_switch: (data[4] >> 3) & 15,
                    },
                )
            } else {
                Err(CrsfParsingError::InvalidPayloadLength)
            }
        })
    }

    fn packet_type() -> (t: PacketType) {
        PacketType::VtxTelemetry
    }

    fn min_payload_size() -> (n: usize) {
        5
    }

    fn to_bytes(&self, buffer: &mut [u8]) -> (r: Result<usize, CrsfParsingError>) {
        if buffer.len() < 5 {
            return Err(CrsfParsingError::BufferOverflow);
        }
        let (f0, f1) = u16_to_be(self.frequency_mhz);
        let flag: u8 = if self.pit_mode {
            1
        } else {
            0
        };
        let pit_byte: u8 = flag | (self.pitmode_control << 1) | (self.pitmode_switch << 3);
        buffer[0] = self.origin_address;
        buffer[1] = self.power_dbm;
        buffer[2] = f0;
        buffer[3] = f1;
        buffer[4] = pit_byte;
        proof {
            assert(buffer@ =~= self.spec_to_bytes() + old(buffer)@.skip(5));
        }
        Ok(5)
    }

    fn from_bytes(data: &[u8]) -> (r: Result<Self, CrsfParsingError>) {
        if data.len() >= 5 {
            let pit_byte = data[4];
            Ok(
                Self {
                    origin_address: data[0],
                    power_dbm: data[1],
                    frequency_mhz: u16_from_be(data[2], data[3]),
                    pit_mode: (pit_byte & 1) != 0,
                    pitmode_control: (pit_byte >> 1) & 3,
                    pitmode_switch: (pit_byte >> 3) & 15,
                },
            )
        } else {
            Err(CrsfParsingError::InvalidPayloadLength)
        }
    }
}


/// Decoding the payload this record encodes gives the record back, for
/// control and switch values that fit their bit fields.
pub proof fn lemma_vtx_telemetry_round_trip(
    x: VtxTelemetry,
    r: Result<VtxTelemetry, CrsfParsingError>,
)
    requires
        x.pitmode_control <= 3,
        x.pitmode_switch <= 15,
        VtxTelemetry::from_bytes_post(x.spec_to_bytes(), r),
    ensures
        r == Ok::<VtxTelemetry, CrsfParsingError>(x),
{
    broadcast use crate::wire::lemma_u16_be_round_trip;

    let f: u8 = if x.pit_mode {
        1
    } else {
        0
    };
    let c = x.pitmode_control;
    let s = x.pitmode_switch;
    let byte = pit_byte_of(x.pit_mode, c, s);
    assert(byte == (f | (c << 1) | (s << 3)));
    assert(((f | (c << 1) | (s << 3)) & 1 != 0) == (f == 1) && ((f | (c << 1) | (s << 3)) >> 1) & 3
        == c && ((f | (c << 1) | (s << 3)) >> 3) & 15 == s) by (bit_vector)
        requires
            f <= 1 && c <= 3 && s <= 15,
    ;
}

} // verus!

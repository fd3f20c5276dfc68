use crate::error::CrsfParsingError;
use crate::packets::CrsfPacket;
use crate::packets::PacketType;
use crate::wire::{u32_byte, u32_from_be, u32_of_be, u32_to_be};
use vstd::prelude::*;

verus! {

/// MAVLink system status sensor bitmasks.
#[derive(Clone, Debug, PartialEq)]
pub struct MavLinkSensor {
    pub dst_addr: u8,
    pub src_addr: u8,
    /// Bitmask of sensors present.
    pub sensor_present: u32,
    /// Bitmask of sensors enabled.
    pub sensor_enabled: u32,
    /// Bitmask of sensors health.
    pub sensor_health: u32,
}

impl MavLinkSensor {
    pub const MIN_PAYLOAD_SIZE: usize = 14;

    pub fn new(
        dst_addr: u8,
        src_addr: u8,
        sensor_present: u32,
        sensor_enabled: u32,
        sensor_health: u32,
    ) -> (r: Result<Self, CrsfParsingError>)
        ensures
            r == Ok::<Self, CrsfParsingError>(
                MavLinkSensor { dst_addr, src_addr, sensor_present, sensor_enabled, sensor_health },
            ),
    {
        Ok(Self { dst_addr, src_addr, sensor_present, sensor_enabled, sensor_health })
    }
}

impl CrsfPacket for MavLinkSensor {
    open spec fn spec_packet_type() -> PacketType {
        PacketType::MavLinkSensor
    }

    open spec fn spec_min_payload_size() -> usize {
        14
    }

    open spec fn spec_to_bytes(self) -> Seq<u8> {
        seq![
            self.dst_addr,
            self.src_addr,
            u32_byte(self.sensor_present, 0),
            u32_byte(self.sensor_present, 1),
            u32_byte(self.sensor_present, 2),
            u32_byte(self.sensor_present, 3),
            u32_byte(self.sensor_enabled, 0),
            u32_byte(self.sensor_enabled, 1),
            u32_byte(self.sensor_enabled, 2),
            u32_byte(self.sensor_enabled, 3),
            u32_byte(self.sensor_health, 0),
            u32_byte(self.sensor_health, 1),
            u32_byte(self.sensor_health, 2),
            u32_byte(self.sensor_health, 3),
        ]
    }

    open spec fn from_bytes_post(data: Seq<u8>, r: Result<Self, CrsfParsingError>) -> bool {
        r == ({
            if data.len() >= 14 {
                Ok(
                    MavLinkSensor {
                        dst_addr: data[0],
                        src_addr: data[1],
                        sensor_present: u32_of_be(data[2], data[3], data[4], data[5]),
                        sensor_enabled: u32_of_be(data[6], data[7], data[8], data[9]),
                        sensor_health: u32_of_be(data[10], data[11], data[12], data[13]),
                    },
                )
            } else {
                Err(CrsfParsingError::InvalidPayloadLength)
            }
        })
    }

    fn packet_type() -> (t: PacketType) {
        PacketType::MavLinkSensor
    }

    fn min_payload_size() -> (n: usize) {
        14
    }

    fn to_bytes(&self, buffer: &mut [u8]) -> (r: Result<usize, CrsfParsingError>) {
        if buffer.len() < 14 {
            return Err(CrsfParsingError::BufferOverflow);
        }
        let (p0, p1, p2, p3) = u32_to_be(self.sensor_present);
        let (e0, e1, e2, e3) = u32_to_be(self.sensor_enabled);
        let (h0, h1, h2, h3) = u32_to_be(self.sensor_health);
        buffer[0] = self.dst_addr;
        buffer[1] = self.src_addr;
        buffer[2] = p0;
        buffer[3] = p1;
        buffer[4] = p2;
        buffer[5] = p3;
        buffer[6] = e0;
        buffer[7] = e1;
        buffer[8] = e2;
        buffer[9] = e3;
        buffer[10] = h0;
        buffer[11] = h1;
        buffer[12] = h2;
        buffer[13] = h3;
        proof {
            assert(buffer@ =~= self.spec_to_bytes() + old(buffer)@.skip(14));
        }
        Ok(14)
    }

    fn from_bytes(data: &[u8]) -> (r: Result<Self, CrsfParsingError>) {
        if data.len() >= 14 {
            Ok(
                Self {
                    dst_addr: data[0],
                    src_addr: data[1],
                    sensor_present: u32_from_be(data[2], data[3], data[4], data[5]),
                    sensor_enabled: u32_from_be(data[6], data[7], data[8], data[9]),
                    sensor_health: u32_from_be(data[10], data[11], data[12], data[13]),
                },
            )
        } else {
            Err(CrsfParsingError::InvalidPayloadLength)
        }
    }
}


/// Decoding the payload this record encodes gives the record back.
pub proof fn lemma_mavlink_sensor_round_trip(
    x: MavLinkSensor,
    r: Result<MavLinkSensor, CrsfParsingError>,
)
    requires
        MavLinkSensor::from_bytes_post(x.spec_to_bytes(), r),
    ensures
        r == Ok::<MavLinkSensor, CrsfParsingError>(x),
{
    broadcast use crate::wire::lemma_u32_be_round_trip;

}

} // verus!

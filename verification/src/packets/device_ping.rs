use crate::error::CrsfParsingError;
use crate::packets::CrsfPacket;
use crate::packets::PacketType;
use vstd::prelude::*;

verus! {

/// A broadcast asking every device to answer with its information.
#[derive(Clone, Debug, PartialEq, Eq)]
pub struct DevicePing {
    pub dst_addr: u8,
    pub src_addr: u8,
}

impl DevicePing {
    pub const MIN_PAYLOAD_SIZE: usize = 2;
}

impl CrsfPacket for DevicePing {
    open spec fn spec_packet_type() -> PacketType {
        PacketType::DevicePing
    }

    open spec fn spec_min_payload_size() -> usize {
        2
    }

    open spec fn spec_to_bytes(self) -> Seq<u8> {
        seq![self.dst_addr, self.src_addr]
    }

    open spec fn from_bytes_post(data: Seq<u8>, r: Result<Self, CrsfParsingError>) -> bool {
        r == ({
            if data.len() >= 2 {
                Ok(DevicePing { dst_addr: data[0], src_addr: data[1] })
            } else {
                Err(CrsfParsingError::InvalidPayloadLength)
            }
        })
    }

    fn packet_type() -> (t: PacketType) {
        PacketType::DevicePing
    }

    fn min_payload_size() -> (n: usize) {
        2
    }

    fn to_bytes(&self, buffer: &mut [u8]) -> (r: Result<usize, CrsfParsingError>) {
        if buffer.len() < 2 {
            return Err(CrsfParsingError::BufferOverflow);
        }
        buffer[0] = self.dst_addr;
        buffer[1] = self.src_addr;
        proof {
            assert(buffer@ =~= self.spec_to_bytes() + old(buffer)@.skip(2));
        }
        Ok(2)
    }

    fn from_bytes(data: &[u8]) -> (r: Result<Self, CrsfParsingError>) {
        if data.len() >= 2 {
            Ok(Self { dst_addr: data[0], src_addr: data[1] })
        } else {
            Err(CrsfParsingError::InvalidPayloadLength)
        }
    }
}


/// Decoding the payload this record encodes gives the record back.
pub proof fn lemma_device_ping_round_trip(x: DevicePing, r: Result<DevicePing, CrsfParsingError>)
    requires
        DevicePing::from_bytes_post(x.spec_to_bytes(), r),
    ensures
        r == Ok::<DevicePing, CrsfParsingError>(x),
{
}

} // verus!

use crate::error::CrsfParsingError;
use crate::packets::CrsfPacket;
use crate::packets::PacketType;
use crate::wire::{
    i32_bits, i32_from_be, i32_of_bits, i32_to_be, u32_byte, u32_from_be, u32_of_be, u32_to_be,
};
use vstd::prelude::*;

verus! {

/// A remote-related packet: a container for sub-packets told apart by a
/// sub-type byte.
#[derive(Clone, Debug, PartialEq)]
pub struct Remote {
    pub dst_addr: u8,
    pub src_addr: u8,
    pub payload: RemotePayload,
}

/// The sub-packets a remote packet can carry.
#[derive(Clone, Debug, PartialEq)]
pub enum RemotePayload {
    TimingCorrection(TimingCorrection),
}

/// Timing synchronization between transmitter and receiver (sub-type 0x10).
#[derive(Clone, Debug, PartialEq)]
pub struct TimingCorrection {
    /// Update interval in 100 ns units.
    pub update_interval: u32,
    /// Timing offset in 100 ns units; positive means the data came too
    /// early, negative too late.
    pub offset: i32,
}

impl Remote {
    pub const MIN_PAYLOAD_SIZE: usize = 11;
}

impl CrsfPacket for Remote {
    open spec fn spec_packet_type() -> PacketType {
        PacketType::RadioId
    }

    open spec fn spec_min_payload_size() -> usize {
        11
    }

    open spec fn spec_to_bytes(self) -> Seq<u8> {
        match self.payload {
            RemotePayload::TimingCorrection(p) => seq![
                self.dst_addr,
                self.src_addr,
                0x10u8,
                u32_byte(p.update_interval, 0),
                u32_byte(p.update_interval, 1),
                u32_byte(p.update_interval, 2),
                u32_byte(p.update_interval, 3),
                u32_byte(i32_bits(p.offset), 0),
                u32_byte(i32_bits(p.offset), 1),
                u32_byte(i32_bits(p.offset), 2),
                u32_byte(i32_bits(p.offset), 3),
            ],
        }
    }

    open spec fn from_bytes_post(data: Seq<u8>, r: Result<Self, CrsfParsingError>) -> bool {
        r == ({
            if data.len() < 3 {
                Err(CrsfParsingError::InvalidPayloadLength)
            } else if data[2] == 0x10 {
                if data.len() < 11 {
                    Err(CrsfParsingError::InvalidPayloadLength)
                } else {
                    Ok(
                        Remote {
                            dst_addr: data[0],
                            src_addr: data[1],
                            payload: RemotePayload::TimingCorrection(
                                TimingCorrection {
                                    update_interval: u32_of_be(data[3], data[4], data[5], data[6]),
                                    offset: i32_of_bits(u32_of_be(data[7], data[8], data[9], data[10])),
                                },
                            ),
                        },
                    )
                }
            } else {
                Err(CrsfParsingError::InvalidPayload)
            }
        })
    }

    fn packet_type() -> (t: PacketType) {
        PacketType::RadioId
    }

    fn min_payload_size() -> (n: usize) {
        11
    }

    fn to_bytes(&self, buffer: &mut [u8]) -> (r: Result<usize, CrsfParsingError>) {
        match &self.payload {
            RemotePayload::TimingCorrection(p) => {
                if buffer.len() < 11 {
                    return Err(CrsfParsingError::BufferOverflow);
                }
                let (u0, u1, u2, u3) = u32_to_be(p.update_interval);
                let (o0, o1, o2, o3) = i32_to_be(p.offset);
                buffer[0] = self.dst_addr;
                buffer[1] = self.src_addr;
                buffer[2] = 0x10;
                buffer[3] = u0;
                buffer[4] = u1;
                buffer[5] = u2;
                buffer[6] = u3;
                buffer[7] = o0;
                buffer[8] = o1;
                buffer[9] = o2;
                buffer[10] = o3;
                proof {
                    assert(buffer@ =~= self.spec_to_bytes() + old(buffer)@.skip(11));
                }
                Ok(11)
            },
        }
    }

    fn from_bytes(data: &[u8]) -> (r: Result<Self, CrsfParsingError>) {
        if data.len() < 3 {
            return Err(CrsfParsingError::InvalidPayloadLength);
        }
        let sub_type = data[2];
        if sub_type == 0x10 {
            if data.len() < 11 {
                return Err(CrsfParsingError::InvalidPayloadLength);
            }
            Ok(
                Self {
                    dst_addr: data[0],
                    src_addr: data[1],
                    payload: RemotePayload::TimingCorrection(
                        TimingCorrection {
                            update_interval: u32_from_be(data[3], data[4], data[5], data[6]),
                            offset: i32_from_be(data[7], data[8], data[9], data[10]),
                        },
                    ),
                },
            )
        } else {
            Err(CrsfParsingError::InvalidPayload)
        }
    }
}


/// Decoding the payload this record encodes gives the record back.
pub proof fn lemma_remote_round_trip(x: Remote, r: Result<Remote, CrsfParsingError>)
    requires
        Remote::from_bytes_post(x.spec_to_bytes(), r),
    ensures
        r == Ok::<Remote, CrsfParsingError>(x),
{
    broadcast use crate::wire::lemma_u32_be_round_trip, crate::wire::lemma_i32_bits_round_trip;

}

} // verus!

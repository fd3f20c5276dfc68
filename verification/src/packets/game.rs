use crate::error::CrsfParsingError;
use crate::packets::CrsfPacket;
use crate::packets::PacketType;
use crate::wire::{i16_bits, i16_from_be, i16_of_bits, i16_to_be, u16_from_be, u16_hi, u16_lo,
    u16_of_be, u16_to_be};
use vstd::prelude::*;

verus! {

/// A game-mode packet: points or a command code, addressed to a device.
#[derive(Clone, Debug, PartialEq)]
pub struct Game {
    pub dst_addr: u8,
    pub src_addr: u8,
    pub payload: GamePayload,
}

/// The payloads a game packet can carry, told apart by a sub-type byte.
#[derive(Clone, Debug, PartialEq)]
pub enum GamePayload {
    AddPoints(i16),
    CommandCode(u16),
}

impl Game {
    pub const MIN_PAYLOAD_SIZE: usize = 5;
}

impl CrsfPacket for Game {
    open spec fn spec_packet_type() -> PacketType {
        PacketType::Game
    }

    open spec fn spec_min_payload_size() -> usize {
        5
    }

    open spec fn spec_to_bytes(self) -> Seq<u8> {
        match self.payload {
            GamePayload::AddPoints(points) => seq![
                self.dst_addr,
                self.src_addr,
                1u8,
                u16_hi(i16_bits(points)),
                u16_lo(i16_bits(points)),
            ],
            GamePayload::CommandCode(code) => seq![
                self.dst_addr,
                self.src_addr,
                2u8,
                u16_hi(code),
                u16_lo(code),
            ],
        }
    }

    open spec fn from_bytes_post(data: Seq<u8>, r: Result<Self, CrsfParsingError>) -> bool {
        r == ({
            if data.len() < 5 {
                Err(CrsfParsingError::InvalidPayloadLength)
            } else if data[2] == 1 {
                Ok(
                    Game {
                        dst_addr: data[0],
                        src_addr: data[1],
                        payload: GamePayload::AddPoints(i16_of_bits(u16_of_be(data[3], data[4]))),
                    },
                )
            } else if data[2] == 2 {
                Ok(
                    Game {
                        dst_addr: data[0],
                        src_addr: data[1],
                        payload: GamePayload::CommandCode(u16_of_be(data[3], data[4])),
                    },
                )
            } else {
                Err(CrsfParsingError::InvalidPayload)
            }
        })
    }

    fn packet_type() -> (t: PacketType) {
        PacketType::Game
    }

    fn min_payload_size() -> (n: usize) {
        5
    }

    fn to_bytes(&self, buffer: &mut [u8]) -> (r: Result<usize, CrsfParsingError>) {
        if buffer.len() < 5 {
            return Err(CrsfParsingError::BufferOverflow);
        }
        buffer[0] = self.dst_addr;
        buffer[1] = self.src_addr;
        match &self.payload {
            GamePayload::AddPoints(points) => {
                let (hi, lo) = i16_to_be(*points);
                buffer[2] = 1;
                buffer[3] = hi;
                buffer[4] = lo;
            },
            GamePayload::CommandCode(code) => {
                let (hi, lo) = u16_to_be(*code);
                buffer[2] = 2;
                buffer[3] = hi;
                buffer[4] = lo;
            },
        }
        proof {
            assert(buffer@ =~= self.spec_to_bytes() + old(buffer)@.skip(5));
        }
        Ok(5)
    }

    fn from_bytes(data: &[u8]) -> (r: Result<Self, CrsfParsingError>) {
        if data.len() < 5 {
            return Err(CrsfParsingError::InvalidPayloadLength);
        }
        let sub_type = data[2];
        if sub_type == 1 {
            Ok(
                Self {
                    dst_addr: data[0],
                    src_addr: data[1],
                    payload: GamePayload::AddPoints(i16_from_be(data[3], data[4])),
                },
            )
        } else if sub_type == 2 {
            Ok(
                Self {
                    dst_addr: data[0],
                    src_addr: data[1],
                    payload: GamePayload::CommandCode(u16_from_be(data[3], data[4])),
                },
            )
        } else {
            Err(CrsfParsingError::InvalidPayload)
        }
    }
}


/// Decoding the payload this record encodes gives the record back.
pub proof fn lemma_game_round_trip(x: Game, r: Result<Game, CrsfParsingError>)
    requires
        Game::from_bytes_post(x.spec_to_bytes(), r),
    ensures
        r == Ok::<Game, CrsfParsingError>(x),
{
    broadcast use crate::wire::lemma_u16_be_round_trip, crate::wire::lemma_i16_bits_round_trip;

}

} // verus!

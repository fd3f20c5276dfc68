use crate::error::CrsfParsingError;
use crate::packets::CrsfPacket;
use crate::packets::PacketType;
use vstd::prelude::*;

verus! {

/// An ESP-NOW race-timing message.
#[derive(Clone, Debug, PartialEq)]
pub struct EspNow {
    /// Seat position of the pilot.
    pub val1: u8,
    /// The current pilot's lap.
    pub val2: u8,
    /// Fifteen characters for the lap time current/split.
    pub val3: [u8; 15],
    /// Fifteen characters for the lap time current/split.
    pub val4: [u8; 15],
    /// Free text of twenty characters at the bottom of the screen.
    pub free_text: [u8; 20],
}

impl EspNow {
    pub const MIN_PAYLOAD_SIZE: usize = 52;

    pub fn new(val1: u8, val2: u8, val3: [u8; 15], val4: [u8; 15], free_text: [u8; 20]) -> (r:
        Result<Self, CrsfParsingError>)
        ensures
            r == Ok::<Self, CrsfParsingError>(EspNow { val1, val2, val3, val4, free_text }),
    {
        Ok(Self { val1, val2, val3, val4, free_text })
    }
}

impl CrsfPacket for EspNow {
    open spec fn spec_packet_type() -> PacketType {
        PacketType::EspNow
    }

    open spec fn spec_min_payload_size() -> usize {
        52
    }

    open spec fn spec_to_bytes(self) -> Seq<u8> {
        seq![self.val1, self.val2] + self.val3@ + self.val4@ + self.free_text@
    }

    open spec fn from_bytes_post(data: Seq<u8>, r: Result<Self, CrsfParsingError>) -> bool {
        r == ({
            if data.len() == 52 {
                Ok(
                    EspNow {
                        val1: data[0],
                        val2: data[1],
                        val3: seq_to_array_15(data.subrange(2, 17)),
                        val4: seq_to_array_15(data.subrange(17, 32)),
                        free_text: seq_to_array_20(data.subrange(32, 52)),
                    },
                )
            } else {
                Err(CrsfParsingError::InvalidPayloadLength)
            }
        })
    }

    fn packet_type() -> (t: PacketType) {
        PacketType::EspNow
    }

    fn min_payload_size() -> (n: usize) {
        52
    }

    fn to_bytes(&self, buffer: &mut [u8]) -> (r: Result<usize, CrsfParsingError>) {
        if buffer.len() < 52 {
            return Err(CrsfParsingError::BufferOverflow);
        }
        buffer[0] = self.val1;
        buffer[1] = self.val2;
        let mut i: usize = 0;
        while i < 15
            invariant
                0 <= i <= 15,
                buffer@.len() == old(buffer)@.len() >= 52,
                buffer@[0] == self.val1,
                buffer@[1] == self.val2,
                forall|m: int| 0 <= m < i ==> buffer@[2 + m] == self.val3@[m],
                forall|m: int| 2 + i <= m < buffer@.len() ==> buffer@[m] == old(buffer)@[m],
            decreases 15 - i,
        {
            buffer[2 + i] = self.val3[i];
            i += 1;
        }
        let mut j: usize = 0;
        while j < 15
            invariant
                0 <= j <= 15,
                buffer@.len() == old(buffer)@.len() >= 52,
                buffer@[0] == self.val1,
                buffer@[1] == self.val2,
                forall|m: int| 0 <= m < 15 ==> buffer@[2 + m] == self.val3@[m],
                forall|m: int| 0 <= m < j ==> buffer@[17 + m] == self.val4@[m],
                forall|m: int| 17 + j <= m < buffer@.len() ==> buffer@[m] == old(buffer)@[m],
            decreases 15 - j,
        {
            buffer[17 + j] = self.val4[j];
            j += 1;
        }
        let mut k: usize = 0;
        while k < 20
            invariant
                0 <= k <= 20,
                buffer@.len() == old(buffer)@.len() >= 52,
                buffer@[0] == self.val1,
                buffer@[1] == self.val2,
                forall|m: int| 0 <= m < 15 ==> buffer@[2 + m] == self.val3@[m],
                forall|m: int| 0 <= m < 15 ==> buffer@[17 + m] == self.val4@[m],
                forall|m: int| 0 <= m < k ==> buffer@[32 + m] == self.free_text@[m],
                forall|m: int| 32 + k <= m < buffer@.len() ==> buffer@[m] == old(buffer)@[m],
            decreases 20 - k,
        {
            buffer[32 + k] = self.free_text[k];
            k += 1;
        }
        proof {
            assert(buffer@ =~= self.spec_to_bytes() + old(buffer)@.skip(52));
        }
        Ok(52)
    }

    fn from_bytes(data: &[u8]) -> (r: Result<Self, CrsfParsingError>) {
        if data.len() != 52 {
            return Err(CrsfParsingError::InvalidPayloadLength);
        }
        let mut val3 = [0u8; 15];
        let mut val4 = [0u8; 15];
        let mut free_text = [0u8; 20];
        let mut i: usize = 0;
        while i < 15
            invariant
                0 <= i <= 15,
                data@.len() == 52,
                val3@.len() == 15,
                val3@.subrange(0, i as int) =~= data@.subrange(2, 2 + i as int),
            decreases 15 - i,
        {
            val3[i] = data[2 + i];
            i += 1;
        }
        let mut j: usize = 0;
        while j < 15
            invariant
                0 <= j <= 15,
                data@.len() == 52,
                val4@.len() == 15,
                val4@.subrange(0, j as int) =~= data@.subrange(17, 17 + j as int),
            decreases 15 - j,
        {
            val4[j] = data[17 + j];
            j += 1;
        }
        let mut k: usize = 0;
        while k < 20
            invariant
                0 <= k <= 20,
                data@.len() == 52,
                free_text@.len() == 20,
                free_text@.subrange(0, k as int) =~= data@.subrange(32, 32 + k as int),
            decreases 20 - k,
        {
            free_text[k] = data[32 + k];
            k += 1;
        }
        proof {
            assert(val3@ =~= data@.subrange(2, 17));
            assert(val4@ =~= data@.subrange(17, 32));
            assert(free_text@ =~= data@.subrange(32, 52));
            seq_to_array_15_is_inverse(data@.subrange(2, 17), val3);
            seq_to_array_15_is_inverse(data@.subrange(17, 32), val4);
            seq_to_array_20_is_inverse(data@.subrange(32, 52), free_text);
        }
        Ok(Self { val1: data[0], val2: data[1], val3, val4, free_text })
    }
}

/// The fifteen-byte array that holds a fifteen-byte sequence.
pub open spec fn seq_to_array_15(s: Seq<u8>) -> [u8; 15] {
    choose|a: [u8; 15]| a@ == s
}

/// The twenty-byte array that holds a twenty-byte sequence.
pub open spec fn seq_to_array_20(s: Seq<u8>) -> [u8; 20] {
    choose|a: [u8; 20]| a@ == s
}

pub proof fn seq_to_array_15_is_inverse(s: Seq<u8>, a: [u8; 15])
    requires
        a@ == s,
    ensures
        seq_to_array_15(s) == a,
{
    broadcast use vstd::array::group_array_axioms;

    assert(exists|x: [u8; 15]| x@ == s) by {
        assert(a@ == s);
    }
    let c = choose|x: [u8; 15]| x@ == s;
    assert(c =~= a);
}

pub proof fn seq_to_array_20_is_inverse(s: Seq<u8>, a: [u8; 20])
    requires
        a@ == s,
    ensures
        seq_to_array_20(s) == a,
{
    broadcast use vstd::array::group_array_axioms;

    assert(exists|x: [u8; 20]| x@ == s) by {
        assert(a@ == s);
    }
    let c = choose|x: [u8; 20]| x@ == s;
    assert(c =~= a);
}


/// Decoding the payload this record encodes gives the record back.
pub proof fn lemma_esp_now_round_trip(x: EspNow, r: Result<EspNow, CrsfParsingError>)
    requires
        EspNow::from_bytes_post(x.spec_to_bytes(), r),
    ensures
        r == Ok::<EspNow, CrsfParsingError>(x),
{
    let w = x.spec_to_bytes();
    assert(w.subrange(2, 17) =~= x.val3@);
    assert(w.subrange(17, 32) =~= x.val4@);
    assert(w.subrange(32, 52) =~= x.free_text@);
    seq_to_array_15_is_inverse(w.subrange(2, 17), x.val3);
    seq_to_array_15_is_inverse(w.subrange(17, 32), x.val4);
    seq_to_array_20_is_inverse(w.subrange(32, 52), x.free_text);
}

} // verus!

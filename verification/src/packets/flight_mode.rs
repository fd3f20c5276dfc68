use crate::error::CrsfParsingError;
use crate::packets::CrsfPacket;
use crate::packets::PacketType;
use crate::text::{bytes_as_str, first_null, lemma_first_null};
use vstd::prelude::*;
use vstd::string::StringSliceAdditionalSpecFns;
use vstd::utf8::encode_utf8;
use vstd::utf8::valid_utf8;

verus! {

/// The craft's flight mode, carried as a null-terminated string of at
/// most fifty-nine bytes.
#[derive(Clone, Debug, PartialEq)]
pub struct FlightMode {
    /// The flight mode text.
    pub flight_mode: String,
}

impl FlightMode {
    pub const MIN_PAYLOAD_SIZE: usize = 1;

    /// Builds a flight mode packet from text of at most fifty-nine bytes.
    pub fn new(flight_mode: &str) -> (r: Result<Self, CrsfParsingError>)
        ensures
            flight_mode.spec_bytes().len() <= 59 ==> (r matches Ok(p) && p.flight_mode@
                == flight_mode@),
            flight_mode.spec_bytes().len() > 59 ==> r == Err::<Self, CrsfParsingError>(
                CrsfParsingError::InvalidPayloadLength,
            ),
    {
        if flight_mode.as_bytes().len() > 59 {
            return Err(CrsfParsingError::InvalidPayloadLength);
        }
        Ok(Self { flight_mode: flight_mode.to_owned() })
    }

    /// The flight mode text.
    pub fn flight_mode(&self) -> (r: &str)
        ensures
            r@ == self.flight_mode@,
    {
        self.flight_mode.as_str()
    }
}

impl CrsfPacket for FlightMode {
    open spec fn spec_packet_type() -> PacketType {
        PacketType::FlightMode
    }

    open spec fn spec_min_payload_size() -> usize {
        1
    }

    open spec fn spec_to_bytes(self) -> Seq<u8> {
        encode_utf8(self.flight_mode@) + seq![0u8]
    }

    open spec fn from_bytes_post(data: Seq<u8>, r: Result<Self, CrsfParsingError>) -> bool {
        let text = data.subrange(0, first_null(data));
        if !valid_utf8(text) {
            r == Err::<Self, CrsfParsingError>(CrsfParsingError::InvalidPayload)
        } else if text.len() > 59 {
            r == Err::<Self, CrsfParsingError>(CrsfParsingError::InvalidPayloadLength)
        } else {
            &&& r matches Ok(p)
            &&& encode_utf8(p.flight_mode@) == text
        }
    }

    fn packet_type() -> (t: PacketType) {
        PacketType::FlightMode
    }

    fn min_payload_size() -> (n: usize) {
        1
    }

    fn to_bytes(&self, buffer: &mut [u8]) -> (r: Result<usize, CrsfParsingError>) {
        let bytes = self.flight_mode.as_str().as_bytes();
        let len = bytes.len();
        if buffer.len() <= len {
            return Err(CrsfParsingError::BufferOverflow);
        }
        let mut i: usize = 0;
        while i < len
            invariant
                0 <= i <= len,
                len == bytes@.len(),
                bytes@ == encode_utf8(self.flight_mode@),
                buffer@.len() == old(buffer)@.len() > len,
                forall|m: int| 0 <= m < i ==> buffer@[m] == bytes@[m],
                forall|m: int| i <= m < buffer@.len() ==> buffer@[m] == old(buffer)@[m],
            decreases len - i,
        {
            buffer[i] = bytes[i];
            i += 1;
        }
        buffer[len] = 0;
        proof {
            assert(buffer@ =~= self.spec_to_bytes() + old(buffer)@.skip(len + 1));
        }
        Ok(len + 1)
    }

    fn from_bytes(data: &[u8]) -> (r: Result<Self, CrsfParsingError>) {
        let dlen = data.len();
        let mut i: usize = 0;
        while i < dlen && data[i] != 0
            invariant
                0 <= i <= dlen,
                dlen == data@.len(),
                forall|m: int| 0 <= m < i ==> data@[m] != 0,
            decreases dlen - i,
        {
            i += 1;
        }
        proof {
            lemma_first_null(data@, i as int);
        }
        let text = vstd::slice::slice_subrange(data, 0, i);
        match bytes_as_str(text) {
            None => Err(CrsfParsingError::InvalidPayload),
            Some(s) => {
                if i > 59 {
                    return Err(CrsfParsingError::InvalidPayloadLength);
                }
                Ok(Self { flight_mode: s.to_owned() })
            },
        }
    }
}


/// Decoding the payload this record encodes gives the record back, for
/// mode text of at most fifty-nine bytes without an interior null byte.
pub proof fn lemma_flight_mode_round_trip(x: FlightMode, r: Result<FlightMode, CrsfParsingError>)
    requires
        encode_utf8(x.flight_mode@).len() <= 59,
        forall|i: int|
            0 <= i < encode_utf8(x.flight_mode@).len() ==> #[trigger] encode_utf8(x.flight_mode@)[i]
                != 0,
        FlightMode::from_bytes_post(x.spec_to_bytes(), r),
    ensures
        r matches Ok(p) && p.flight_mode@ == x.flight_mode@,
{
    broadcast use vstd::utf8::encode_utf8_valid_utf8, vstd::utf8::encode_utf8_decode_utf8;

    let enc = encode_utf8(x.flight_mode@);
    let w = x.spec_to_bytes();
    assert(w.len() == enc.len() + 1);
    assert(forall|m: int| 0 <= m < enc.len() ==> w[m] == enc[m]);
    assert(w[enc.len() as int] == 0);
    lemma_first_null(w, enc.len() as int);
    assert(w.subrange(0, enc.len() as int) =~= enc);
    match r {
        Ok(p) => {
            assert(encode_utf8(p.flight_mode@) == enc);
            assert(vstd::utf8::decode_utf8(encode_utf8(p.flight_mode@)) == p.flight_mode@);
            assert(vstd::utf8::decode_utf8(encode_utf8(x.flight_mode@)) == x.flight_mode@);
        },
        Err(_) => {
            assert(false);
        },
    }
}

} // verus!

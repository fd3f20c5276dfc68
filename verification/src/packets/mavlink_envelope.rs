use crate::error::CrsfParsingError;
use crate::packets::CrsfPacket;
use crate::packets::PacketType;
use vstd::prelude::*;

verus! {

/// One chunk of a MAVLink frame carried over the wire.
///
/// MAVLink frames can be larger than one frame of this protocol, so they
/// are broken up into chunks; the first payload byte packs the chunk
/// counts, the second the chunk's data size.
#[derive(Clone, Debug, PartialEq)]
pub struct MavlinkEnvelope {
    /// Total number of chunks for the MAVLink frame.
    pub total_chunks: u8,
    /// The index of the current chunk, starting at zero.
    pub current_chunk: u8,
    /// The MAVLink data of this chunk, at most fifty-eight bytes.
    pub data: Vec<u8>,
}

impl MavlinkEnvelope {
    pub const MIN_PAYLOAD_SIZE: usize = 2;

    /// Builds an envelope from at most fifty-eight bytes of chunk data.
    pub fn new(total_chunks: u8, current_chunk: u8, data: &[u8]) -> (r: Result<
        Self,
        CrsfParsingError,
    >)
        ensures
            data@.len() <= 58 ==> (r matches Ok(p) && p.total_chunks == total_chunks
                && p.current_chunk == current_chunk && p.data@ == data@),
            data@.len() > 58 ==> r == Err::<Self, CrsfParsingError>(
                CrsfParsingError::InvalidPayloadLength,
            ),
    {
        if data.len() > 58 {
            return Err(CrsfParsingError::InvalidPayloadLength);
        }
        let d = vstd::slice::slice_to_vec(data);
        Ok(Self { total_chunks, current_chunk, data: d })
    }

    /// The MAVLink data of this chunk.
    pub fn data(&self) -> (r: &[u8])
        ensures
            r@ == self.data@,
    {
        self.data.as_slice()
    }
}

impl CrsfPacket for MavlinkEnvelope {
    open spec fn spec_packet_type() -> PacketType {
        PacketType::MavlinkEnvelope
    }

    open spec fn spec_min_payload_size() -> usize {
        2
    }

    open spec fn spec_to_bytes(self) -> Seq<u8> {
        seq![
            ((self.total_chunks << 4) | (self.current_chunk & 0x0F)) as u8,
            self.data@.len() as u8,
        ] + self.data@
    }

    open spec fn from_bytes_post(data: Seq<u8>, r: Result<Self, CrsfParsingError>) -> bool {
        if data.len() < 2 {
            r == Err::<Self, CrsfParsingError>(CrsfParsingError::InvalidPayloadLength)
        } else if data.len() < 2 + data[1] {
            r == Err::<Self, CrsfParsingError>(CrsfParsingError::InvalidPayloadLength)
        } else if data[1] > 58 {
            r == Err::<Self, CrsfParsingError>(CrsfParsingError::InvalidPayloadLength)
        } else {
            &&& r matches Ok(p)
            &&& p.total_chunks == data[0] >> 4
            &&& p.current_chunk == data[0] & 0x0F
            &&& p.data@ == data.subrange(2, 2 + data[1])
        }
    }

    fn packet_type() -> (t: PacketType) {
        PacketType::MavlinkEnvelope
    }

    fn min_payload_size() -> (n: usize) {
        2
    }

    fn to_bytes(&self, buffer: &mut [u8]) -> (r: Result<usize, CrsfParsingError>) {
        let data_size = self.data.len();
        let buf_len = buffer.len();
        if buf_len < 2 || buf_len - 2 < data_size {
            return Err(CrsfParsingError::BufferOverflow);
        }
        buffer[0] = (self.total_chunks << 4) | (self.current_chunk & 0x0F);
        buffer[1] = data_size as u8;
        let mut i: usize = 0;
        while i < data_size
            invariant
                0 <= i <= data_size,
                data_size == self.data@.len(),
                buffer@.len() == old(buffer)@.len(),
                buffer@.len() == buf_len,
                2 + data_size <= buf_len,
                buffer@[0] == ((self.total_chunks << 4) | (self.current_chunk & 0x0F)),
                buffer@[1] == self.data@.len() as u8,
                forall|m: int| 0 <= m < i ==> buffer@[2 + m] == self.data@[m],
                forall|m: int| 2 + i <= m < buffer@.len() ==> buffer@[m] == old(buffer)@[m],
            decreases data_size - i,
        {
            buffer[2 + i] = self.data[i];
            i += 1;
        }
        proof {
            assert(buffer@ =~= self.spec_to_bytes() + old(buffer)@.skip(2 + data_size as int));
        }
        Ok(2 + data_size)
    }

    fn from_bytes(data: &[u8]) -> (r: Result<Self, CrsfParsingError>) {
        if data.len() < 2 {
            return Err(CrsfParsingError::InvalidPayloadLength);
        }
        let data_size = data[1] as usize;
        if data.len() - 2 < data_size {
            return Err(CrsfParsingError::InvalidPayloadLength);
        }
        if data_size > 58 {
            return Err(CrsfParsingError::InvalidPayloadLength);
        }
        let chunk = vstd::slice::slice_subrange(data, 2, 2 + data_size);
        let payload_data = vstd::slice::slice_to_vec(chunk);
        Ok(Self { total_chunks: data[0] >> 4, current_chunk: data[0] & 0x0F, data: payload_data })
    }
}


/// Decoding the payload this record encodes gives the record back, for
/// chunk counts that fit their four-bit fields and data of at most
/// fifty-eight bytes.
pub proof fn lemma_mavlink_envelope_round_trip(
    x: MavlinkEnvelope,
    r: Result<MavlinkEnvelope, CrsfParsingError>,
)
    requires
        x.total_chunks <= 15,
        x.current_chunk <= 15,
        x.data@.len() <= 58,
        MavlinkEnvelope::from_bytes_post(x.spec_to_bytes(), r),
    ensures
        r matches Ok(p) && p.total_chunks == x.total_chunks && p.current_chunk == x.current_chunk
            && p.data@ == x.data@,
{
    let w = x.spec_to_bytes();
    let tc = x.total_chunks;
    let cc = x.current_chunk;
    assert(w[0] == ((tc << 4) | (cc & 0x0F)));
    assert((((tc << 4) | (cc & 0x0F)) >> 4) == tc && (((tc << 4) | (cc & 0x0F)) & 0x0F) == cc)
        by (bit_vector)
        requires
            tc <= 15 && cc <= 15,
    ;
    assert(w[1] == x.data@.len() as u8);
    assert(w.len() == 2 + x.data@.len());
    assert(w.subrange(2, 2 + w[1] as int) =~= x.data@);
}

} // verus!

use crate::error::CrsfParsingError;
use crate::packets::CrsfPacket;
use crate::packets::PacketType;
use crate::wire::{u16_from_be, u16_hi, u16_lo, u16_of_be, u16_to_be, u32_byte, u32_from_be,
    u32_of_be, u32_to_be};
use vstd::prelude::*;

verus! {

/// A logging record: a log type, a timestamp and up to thirteen 32-bit
/// parameters, addressed from one device to another.
#[derive(Clone, Debug, PartialEq)]
pub struct Logging {
    pub dst_addr: u8,
    pub src_addr: u8,
    pub logtype: u16,
    pub timestamp: u32,
    /// Up to thirteen 32-bit parameters.
    pub params: Vec<u32>,
}

/// The wire bytes of a list of parameters.
pub open spec fn log_params_bytes(values: Seq<u32>) -> Seq<u8>
    decreases values.len(),
{
    if values.len() == 0 {
        Seq::empty()
    } else {
        seq![
            u32_byte(values[0], 0),
            u32_byte(values[0], 1),
            u32_byte(values[0], 2),
            u32_byte(values[0], 3),
        ] + log_params_bytes(values.drop_first())
    }
}

/// The parameters read from the bytes after the fixed header, four at a
/// time.
pub open spec fn log_params_of(data: Seq<u8>) -> Seq<u32>
    decreases data.len(),
{
    if data.len() < 4 {
        Seq::empty()
    } else {
        seq![u32_of_be(data[0], data[1], data[2], data[3])] + log_params_of(data.skip(4))
    }
}

pub proof fn lemma_log_params_bytes_len(values: Seq<u32>)
    ensures
        log_params_bytes(values).len() == 4 * values.len(),
    decreases values.len(),
{
    if values.len() > 0 {
        lemma_log_params_bytes_len(values.drop_first());
    }
}

pub proof fn lemma_log_params_bytes_snoc(values: Seq<u32>)
    requires
        values.len() > 0,
    ensures
        log_params_bytes(values) == log_params_bytes(values.drop_last()) + seq![
            u32_byte(values.last(), 0),
            u32_byte(values.last(), 1),
            u32_byte(values.last(), 2),
            u32_byte(values.last(), 3),
        ],
    decreases values.len(),
{
    if values.len() == 1 {
        assert(values.drop_last() =~= Seq::<u32>::empty());
        assert(values.drop_first() =~= Seq::<u32>::empty());
        assert(log_params_bytes(Seq::<u32>::empty()) == Seq::<u8>::empty());
        assert(log_params_bytes(values) =~= log_params_bytes(values.drop_last()) + seq![
            u32_byte(values.last(), 0),
            u32_byte(values.last(), 1),
            u32_byte(values.last(), 2),
            u32_byte(values.last(), 3),
        ]);
    } else {
        lemma_log_params_bytes_snoc(values.drop_first());
        assert(values.drop_first().drop_last() =~= values.drop_last().drop_first());
        assert(values.drop_first().last() == values.last());
        assert(log_params_bytes(values) =~= log_params_bytes(values.drop_last()) + seq![
            u32_byte(values.last(), 0),
            u32_byte(values.last(), 1),
            u32_byte(values.last(), 2),
            u32_byte(values.last(), 3),
        ]);
    }
}

impl Logging {
    pub const MIN_PAYLOAD_SIZE: usize = 8;

    /// Builds a logging packet from up to thirteen parameters.
    pub fn new(dst_addr: u8, src_addr: u8, logtype: u16, timestamp: u32, params: &[u32]) -> (r:
        Result<Self, CrsfParsingError>)
        ensures
            params@.len() <= 13 ==> (r matches Ok(p) && p.dst_addr == dst_addr && p.src_addr
                == src_addr && p.logtype == logtype && p.timestamp == timestamp && p.params@
                == params@),
            params@.len() > 13 ==> r == Err::<Self, CrsfParsingError>(
                CrsfParsingError::InvalidPayloadLength,
            ),
    {
        if params.len() > 13 {
            return Err(CrsfParsingError::InvalidPayloadLength);
        }
        let p = vstd::slice::slice_to_vec(params);
        Ok(Self { dst_addr, src_addr, logtype, timestamp, params: p })
    }

    /// The logging parameters.
    pub fn params(&self) -> (r: &[u32])
        ensures
            r@ == self.params@,
    {
        self.params.as_slice()
    }
}

impl CrsfPacket for Logging {
    open spec fn spec_packet_type() -> PacketType {
        PacketType::Logging
    }

    open spec fn spec_min_payload_size() -> usize {
        8
    }

    open spec fn spec_to_bytes(self) -> Seq<u8> {
        seq![
            self.dst_addr,
            self.src_addr,
            u16_hi(self.logtype),
            u16_lo(self.logtype),
            u32_byte(self.timestamp, 0),
            u32_byte(self.timestamp, 1),
            u32_byte(self.timestamp, 2),
            u32_byte(self.timestamp, 3),
        ] + log_params_bytes(self.params@)
    }

    open spec fn from_bytes_post(data: Seq<u8>, r: Result<Self, CrsfParsingError>) -> bool {
        if data.len() >= 8 && (data.len() - 8) % 4 == 0 && (data.len() - 8) / 4 <= 13 {
            &&& r matches Ok(p)
            &&& p.dst_addr == data[0]
            &&& p.src_addr == data[1]
            &&& p.logtype == u16_of_be(data[2], data[3])
            &&& p.timestamp == u32_of_be(data[4], data[5], data[6], data[7])
            &&& p.params@ == log_params_of(data.skip(8))
        } else {
            r == Err::<Self, CrsfParsingError>(CrsfParsingError::InvalidPayloadLength)
        }
    }

    fn packet_type() -> (t: PacketType) {
        PacketType::Logging
    }

    fn min_payload_size() -> (n: usize) {
        8
    }

    fn to_bytes(&self, buffer: &mut [u8]) -> (r: Result<usize, CrsfParsingError>) {
        let n = self.params.len();
        let buf_len = buffer.len();
        proof {
            lemma_log_params_bytes_len(self.params@);
        }
        if buf_len < 8 || (buf_len - 8) / 4 < n {
            proof {
                assert(!(buf_len >= 8 + 4 * n)) by (nonlinear_arith)
                    requires
                        buf_len < 8 || (buf_len - 8) / 4 < n,
                ;
            }
            return Err(CrsfParsingError::BufferOverflow);
        }
        proof {
            assert(8 + 4 * n <= buf_len) by (nonlinear_arith)
                requires
                    buf_len >= 8 && (buf_len - 8) / 4 >= n,
            ;
        }
        let (t0, t1) = u16_to_be(self.logtype);
        let (s0, s1, s2, s3) = u32_to_be(self.timestamp);
        buffer[0] = self.dst_addr;
        buffer[1] = self.src_addr;
        buffer[2] = t0;
        buffer[3] = t1;
        buffer[4] = s0;
        buffer[5] = s1;
        buffer[6] = s2;
        buffer[7] = s3;
        let mut i: usize = 0;
        while i < n
            invariant
                0 <= i <= n,
                n == self.params@.len(),
                buffer@.len() == old(buffer)@.len(),
                buffer@.len() == buf_len,
                8 + 4 * n <= buf_len,
                buffer@[0] == self.dst_addr,
                buffer@[1] == self.src_addr,
                buffer@[2] == u16_hi(self.logtype),
                buffer@[3] == u16_lo(self.logtype),
                buffer@[4] == u32_byte(self.timestamp, 0),
                buffer@[5] == u32_byte(self.timestamp, 1),
                buffer@[6] == u32_byte(self.timestamp, 2),
                buffer@[7] == u32_byte(self.timestamp, 3),
                buffer@.subrange(8, 8 + 4 * i as int) =~= log_params_bytes(
                    self.params@.subrange(0, i as int),
                ),
                forall|m: int| 8 + 4 * i <= m < buffer@.len() ==> buffer@[m] == old(buffer)@[m],
            decreases n - i,
        {
            let (b0, b1, b2, b3) = u32_to_be(self.params[i]);
            buffer[8 + 4 * i] = b0;
            buffer[8 + 4 * i + 1] = b1;
            buffer[8 + 4 * i + 2] = b2;
            buffer[8 + 4 * i + 3] = b3;
            proof {
                lemma_log_params_bytes_len(self.params@.subrange(0, i as int));
                lemma_log_params_bytes_snoc(self.params@.subrange(0, i + 1));
                assert(self.params@.subrange(0, i + 1).drop_last() =~= self.params@.subrange(
                    0,
                    i as int,
                ));
                assert(buffer@.subrange(8, 8 + 4 * (i + 1)) =~= log_params_bytes(
                    self.params@.subrange(0, i as int),
                ) + seq![b0, b1, b2, b3]);
            }
            i += 1;
        }
        proof {
            assert(self.params@.subrange(0, n as int) =~= self.params@);
            assert(buffer@ =~= self.spec_to_bytes() + old(buffer)@.skip(8 + 4 * n as int));
        }
        Ok(8 + 4 * n)
    }

    fn from_bytes(data: &[u8]) -> (r: Result<Self, CrsfParsingError>) {
        if data.len() < 8 {
            return Err(CrsfParsingError::InvalidPayloadLength);
        }
        let dlen = data.len();
        if (dlen - 8) % 4 != 0 {
            return Err(CrsfParsingError::InvalidPayloadLength);
        }
        let count = (dlen - 8) / 4;
        if count > 13 {
            return Err(CrsfParsingError::InvalidPayloadLength);
        }
        proof {
            assert(8 + 4 * count <= dlen) by (nonlinear_arith)
                requires
                    dlen >= 8 && count == (dlen - 8) / 4,
            ;
        }
        let dst_addr = data[0];
        let src_addr = data[1];
        let logtype = u16_from_be(data[2], data[3]);
        let timestamp = u32_from_be(data[4], data[5], data[6], data[7]);
        let mut params: Vec<u32> = Vec::new();
        let mut i: usize = 0;
        while i < count
            invariant
                0 <= i <= count,
                count == (data@.len() - 8) / 4,
                data@.len() == dlen,
                8 + 4 * count <= dlen,
                params@.len() == i,
                params@ + log_params_of(data@.skip(8 + 4 * i as int)) == log_params_of(
                    data@.skip(8),
                ),
            decreases count - i,
        {
            let b0 = data[8 + 4 * i];
            let b1 = data[8 + 4 * i + 1];
            let b2 = data[8 + 4 * i + 2];
            let b3 = data[8 + 4 * i + 3];
            let v = u32_from_be(b0, b1, b2, b3);
            proof {
                let rest = data@.skip(8 + 4 * i as int);
                assert(rest.len() >= 4);
                assert(rest[0] == data@[8 + 4 * i as int] && rest[1] == data@[8 + 4 * i + 1]
                    && rest[2] == data@[8 + 4 * i + 2] && rest[3] == data@[8 + 4 * i + 3]);
                assert(v == u32_of_be(rest[0], rest[1], rest[2], rest[3]));
                assert(rest.skip(4) =~= data@.skip(8 + 4 * (i + 1)));
                assert(params@.push(v) + log_params_of(data@.skip(8 + 4 * (i + 1))) =~= params@ + (
                seq![v] + log_params_of(rest.skip(4))));
            }
            params.push(v);
            i += 1;
        }
        proof {
            assert(data@.skip(8 + 4 * count as int).len() < 4);
            assert(params@ =~= log_params_of(data@.skip(8)));
        }
        Ok(Self { dst_addr, src_addr, logtype, timestamp, params })
    }
}


/// Reading back the bytes a list of parameters encodes gives the list
/// back.
pub proof fn lemma_log_params_round_trip(values: Seq<u32>)
    ensures
        log_params_of(log_params_bytes(values)) == values,
    decreases values.len(),
{
    broadcast use crate::wire::lemma_u32_be_round_trip;

    lemma_log_params_bytes_len(values);
    if values.len() > 0 {
        let w = log_params_bytes(values);
        lemma_log_params_bytes_len(values.drop_first());
        assert(w.skip(4) =~= log_params_bytes(values.drop_first()));
        lemma_log_params_round_trip(values.drop_first());
        assert(log_params_of(w) =~= values);
    }
}

/// Decoding the payload this record encodes gives the record back, for
/// up to thirteen parameters.
pub proof fn lemma_logging_round_trip(x: Logging, r: Result<Logging, CrsfParsingError>)
    requires
        x.params@.len() <= 13,
        Logging::from_bytes_post(x.spec_to_bytes(), r),
    ensures
        r matches Ok(p) && p.dst_addr == x.dst_addr && p.src_addr == x.src_addr && p.logtype
            == x.logtype && p.timestamp == x.timestamp && p.params@ == x.params@,
{
    broadcast use crate::wire::lemma_u16_be_round_trip, crate::wire::lemma_u32_be_round_trip;

    let w = x.spec_to_bytes();
    lemma_log_params_bytes_len(x.params@);
    let n = x.params@.len() as int;
    assert(w.len() == 8 + 4 * n);
    assert((w.len() - 8) % 4 == 0 && (w.len() - 8) / 4 == n) by (nonlinear_arith)
        requires
            w.len() == 8 + 4 * n && n >= 0,
    ;
    assert(w.skip(8) =~= log_params_bytes(x.params@));
    lemma_log_params_round_trip(x.params@);
}

} // verus!

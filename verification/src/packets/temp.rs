use crate::error::CrsfParsingError;
use crate::packets::CrsfPacket;
use crate::packets::PacketType;
use crate::wire::{i16_bits, i16_from_be, i16_of_bits, i16_to_be, u16_hi, u16_lo, u16_of_be};
use vstd::prelude::*;

verus! {

/// Temperature telemetry for up to twenty probes, in deci-degrees
/// Celsius, each a signed 16-bit big-endian field.
#[derive(Clone, Debug, PartialEq)]
pub struct Temp {
    /// Identifies the source of the temperature data.
    pub temp_source_id: u8,
    /// Up to twenty temperature values in deci-degrees Celsius.
    pub temperatures: Vec<i16>,
}

/// The wire bytes of a list of temperatures.
pub open spec fn temp_values_bytes(values: Seq<i16>) -> Seq<u8>
    decreases values.len(),
{
    if values.len() == 0 {
        Seq::empty()
    } else {
        seq![u16_hi(i16_bits(values[0])), u16_lo(i16_bits(values[0]))] + temp_values_bytes(
            values.drop_first(),
        )
    }
}

/// The temperatures read from the bytes after the source id, two at a
/// time; a trailing single byte is ignored.
pub open spec fn temp_values_of(data: Seq<u8>) -> Seq<i16>
    decreases data.len(),
{
    if data.len() < 2 {
        Seq::empty()
    } else {
        seq![i16_of_bits(u16_of_be(data[0], data[1]))] + temp_values_of(data.skip(2))
    }
}

pub proof fn lemma_temp_values_bytes_len(values: Seq<i16>)
    ensures
        temp_values_bytes(values).len() == 2 * values.len(),
    decreases values.len(),
{
    if values.len() > 0 {
        lemma_temp_values_bytes_len(values.drop_first());
    }
}

pub proof fn lemma_temp_values_bytes_snoc(values: Seq<i16>)
    requires
        values.len() > 0,
    ensures
        temp_values_bytes(values) == temp_values_bytes(values.drop_last()) + seq![
            u16_hi(i16_bits(values.last())),
            u16_lo(i16_bits(values.last())),
        ],
    decreases values.len(),
{
    if values.len() == 1 {
        assert(values.drop_last() =~= Seq::<i16>::empty());
        assert(values.drop_first() =~= Seq::<i16>::empty());
        assert(temp_values_bytes(Seq::<i16>::empty()) == Seq::<u8>::empty());
        assert(temp_values_bytes(values) =~= temp_values_bytes(values.drop_last()) + seq![
            u16_hi(i16_bits(values.last())),
            u16_lo(i16_bits(values.last())),
        ]);
    } else {
        lemma_temp_values_bytes_snoc(values.drop_first());
        assert(values.drop_first().drop_last() =~= values.drop_last().drop_first());
        assert(values.drop_first().last() == values.last());
        assert(temp_values_bytes(values) =~= temp_values_bytes(values.drop_last()) + seq![
            u16_hi(i16_bits(values.last())),
            u16_lo(i16_bits(values.last())),
        ]);
    }
}

impl Temp {
    pub const MIN_PAYLOAD_SIZE: usize = 3;

    /// Builds a temperature packet from up to twenty values.
    pub fn new(temp_source_id: u8, temperatures: &[i16]) -> (r: Result<Self, CrsfParsingError>)
        ensures
            temperatures@.len() <= 20 ==> (r matches Ok(p) && p.temp_source_id == temp_source_id
                && p.temperatures@ == temperatures@),
            temperatures@.len() > 20 ==> r == Err::<Self, CrsfParsingError>(
                CrsfParsingError::InvalidPayloadLength,
            ),
    {
        if temperatures.len() > 20 {
            return Err(CrsfParsingError::InvalidPayloadLength);
        }
        let values = vstd::slice::slice_to_vec(temperatures);
        Ok(Self { temp_source_id, temperatures: values })
    }

    /// The temperature values.
    pub fn temperatures(&self) -> (r: &[i16])
        ensures
            r@ == self.temperatures@,
    {
        self.temperatures.as_slice()
    }
}

impl CrsfPacket for Temp {
    open spec fn spec_packet_type() -> PacketType {
        PacketType::Temp
    }

    open spec fn spec_min_payload_size() -> usize {
        3
    }

    open spec fn spec_to_bytes(self) -> Seq<u8> {
        seq![self.temp_source_id] + temp_values_bytes(self.temperatures@)
    }

    open spec fn from_bytes_post(data: Seq<u8>, r: Result<Self, CrsfParsingError>) -> bool {
        if data.len() >= 3 && (data.len() - 1) / 2 <= 20 {
            &&& r matches Ok(p)
            &&& p.temp_source_id == data[0]
            &&& p.temperatures@ == temp_values_of(data.skip(1))
        } else {
            r == Err::<Self, CrsfParsingError>(CrsfParsingError::InvalidPayloadLength)
        }
    }

    fn packet_type() -> (t: PacketType) {
        PacketType::Temp
    }

    fn min_payload_size() -> (n: usize) {
        3
    }

    fn to_bytes(&self, buffer: &mut [u8]) -> (r: Result<usize, CrsfParsingError>) {
        let n = self.temperatures.len();
        let buf_len = buffer.len();
        proof {
            lemma_temp_values_bytes_len(self.temperatures@);
        }
        if buf_len < 1 || (buf_len - 1) / 2 < n {
            proof {
                assert(!(buf_len >= 1 + 2 * n)) by (nonlinear_arith)
                    requires
                        buf_len < 1 || (buf_len - 1) / 2 < n,
                ;
            }
            return Err(CrsfParsingError::BufferOverflow);
        }
        proof {
            assert(1 + 2 * n <= buf_len) by (nonlinear_arith)
                requires
                    buf_len >= 1 && (buf_len - 1) / 2 >= n,
            ;
        }
        buffer[0] = self.temp_source_id;
        let mut i: usize = 0;
        while i < n
            invariant
                0 <= i <= n,
                n == self.temperatures@.len(),
                buffer@.len() == old(buffer)@.len(),
                buffer@.len() == buf_len,
                1 + 2 * n <= buf_len,
                buffer@[0] == self.temp_source_id,
                buffer@.subrange(1, 1 + 2 * i as int) =~= temp_values_bytes(
                    self.temperatures@.subrange(0, i as int),
                ),
                forall|m: int| 1 + 2 * i <= m < buffer@.len() ==> buffer@[m] == old(buffer)@[m],
            decreases n - i,
        {
            let (hi, lo) = i16_to_be(self.temperatures[i]);
            buffer[1 + 2 * i] = hi;
            buffer[1 + 2 * i + 1] = lo;
            proof {
                lemma_temp_values_bytes_len(self.temperatures@.subrange(0, i as int));
                lemma_temp_values_bytes_snoc(self.temperatures@.subrange(0, i + 1));
                assert(self.temperatures@.subrange(0, i + 1).drop_last()
                    =~= self.temperatures@.subrange(0, i as int));
                assert(buffer@.subrange(1, 1 + 2 * (i + 1)) =~= temp_values_bytes(
                    self.temperatures@.subrange(0, i as int),
                ) + seq![hi, lo]);
            }
            i += 1;
        }
        proof {
            assert(self.temperatures@.subrange(0, n as int) =~= self.temperatures@);
            assert(buffer@ =~= self.spec_to_bytes() + old(buffer)@.skip(1 + 2 * n as int));
        }
        Ok(1 + 2 * n)
    }

    fn from_bytes(data: &[u8]) -> (r: Result<Self, CrsfParsingError>) {
        if data.len() < 3 {
            return Err(CrsfParsingError::InvalidPayloadLength);
        }
        let dlen = data.len();
        let count = (dlen - 1) / 2;
        if count > 20 {
            return Err(CrsfParsingError::InvalidPayloadLength);
        }
        proof {
            assert(1 + 2 * count <= dlen) by (nonlinear_arith)
                requires
                    dlen >= 3 && count == (dlen - 1) / 2,
            ;
        }
        let temp_source_id = data[0];
        let mut values: Vec<i16> = Vec::new();
        let mut i: usize = 0;
        while i < count
            invariant
                0 <= i <= count,
                count == (data@.len() - 1) / 2,
                data@.len() == dlen,
                1 + 2 * count <= dlen,
                values@.len() == i,
                values@ + temp_values_of(data@.skip(1 + 2 * i as int)) == temp_values_of(
                    data@.skip(1),
                ),
            decreases count - i,
        {
            let hi = data[1 + 2 * i];
            let lo = data[1 + 2 * i + 1];
            let v = i16_from_be(hi, lo);
            proof {
                let rest = data@.skip(1 + 2 * i as int);
                assert(rest.len() >= 2);
                assert(rest[0] == data@[1 + 2 * i as int] && rest[1] == data@[1 + 2 * i + 1]);
                assert(v == i16_of_bits(u16_of_be(rest[0], rest[1])));
                assert(rest.skip(2) =~= data@.skip(1 + 2 * (i + 1)));
                assert(values@.push(v) + temp_values_of(data@.skip(1 + 2 * (i + 1))) =~= values@ + (
                seq![v] + temp_values_of(rest.skip(2))));
            }
            values.push(v);
            i += 1;
        }
        proof {
            assert(data@.skip(1 + 2 * count as int).len() < 2);
            assert(values@ =~= temp_values_of(data@.skip(1)));
        }
        Ok(Self { temp_source_id, temperatures: values })
    }
}


/// Reading back the bytes a list of temperatures encodes gives the list
/// back.
pub proof fn lemma_temp_values_round_trip(values: Seq<i16>)
    ensures
        temp_values_of(temp_values_bytes(values)) == values,
    decreases values.len(),
{
    broadcast use crate::wire::lemma_u16_be_round_trip, crate::wire::lemma_i16_bits_round_trip;

    lemma_temp_values_bytes_len(values);
    if values.len() > 0 {
        let w = temp_values_bytes(values);
        lemma_temp_values_bytes_len(values.drop_first());
        assert(w.skip(2) =~= temp_values_bytes(values.drop_first()));
        lemma_temp_values_round_trip(values.drop_first());
        assert(temp_values_of(w) =~= values);
    }
}

/// Decoding the payload this record encodes gives the record back, for
/// one to twenty values.
pub proof fn lemma_temp_round_trip(x: Temp, r: Result<Temp, CrsfParsingError>)
    requires
        1 <= x.temperatures@.len() <= 20,
        Temp::from_bytes_post(x.spec_to_bytes(), r),
    ensures
        r matches Ok(p) && p.temp_source_id == x.temp_source_id && p.temperatures@
            == x.temperatures@,
{
    let w = x.spec_to_bytes();
    lemma_temp_values_bytes_len(x.temperatures@);
    let n = x.temperatures@.len() as int;
    assert(w.len() == 1 + 2 * n);
    assert((w.len() - 1) / 2 == n) by (nonlinear_arith)
        requires
            w.len() == 1 + 2 * n && n >= 0,
    ;
    assert(w.skip(1) =~= temp_values_bytes(x.temperatures@));
    lemma_temp_values_round_trip(x.temperatures@);
}

} // verus!

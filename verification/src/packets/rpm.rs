use crate::error::CrsfParsingError;
use crate::packets::CrsfPacket;
use crate::packets::PacketType;
use crate::wire::{i24_of_be, i32_bits, i32_to_be, u32_byte, u32_from_be, u32_of_be};
use vstd::prelude::*;

verus! {

/// Revolutions-per-minute telemetry for up to nineteen motors or
/// propellers; each value travels as a signed 24-bit big-endian field.
#[derive(Clone, Debug, PartialEq)]
pub struct Rpm {
    /// Identifies the source of the RPM data.
    pub rpm_source_id: u8,
    /// One to nineteen RPM values; negative means spinning in reverse.
    pub rpm_values: Vec<i32>,
}

/// The three wire bytes of one RPM value: the low three bytes of its
/// two's-complement pattern, big endian.
pub open spec fn rpm_value_bytes(v: i32) -> Seq<u8> {
    seq![u32_byte(i32_bits(v), 1), u32_byte(i32_bits(v), 2), u32_byte(i32_bits(v), 3)]
}

/// The wire bytes of a list of RPM values.
pub open spec fn rpm_values_bytes(values: Seq<i32>) -> Seq<u8>
    decreases values.len(),
{
    if values.len() == 0 {
        Seq::empty()
    } else {
        rpm_value_bytes(values[0]) + rpm_values_bytes(values.drop_first())
    }
}

/// The RPM values read from the bytes after the source id, three at a
/// time; a trailing fragment shorter than three bytes is ignored.
pub open spec fn rpm_values_of(data: Seq<u8>) -> Seq<i32>
    decreases data.len(),
{
    if data.len() < 3 {
        Seq::empty()
    } else {
        seq![i24_of_be(data[0], data[1], data[2])] + rpm_values_of(data.skip(3))
    }
}

pub proof fn lemma_rpm_values_bytes_len(values: Seq<i32>)
    ensures
        rpm_values_bytes(values).len() == 3 * values.len(),
    decreases values.len(),
{
    if values.len() > 0 {
        lemma_rpm_values_bytes_len(values.drop_first());
    }
}

pub proof fn lemma_rpm_values_bytes_snoc(values: Seq<i32>)
    requires
        values.len() > 0,
    ensures
        rpm_values_bytes(values) == rpm_values_bytes(values.drop_last()) + rpm_value_bytes(
            values.last(),
        ),
    decreases values.len(),
{
    if values.len() == 1 {
        assert(rpm_values_bytes(values.drop_first()) == Seq::<u8>::empty());
        assert(values.drop_last() =~= Seq::<i32>::empty());
        assert(rpm_values_bytes(values) =~= rpm_values_bytes(values.drop_last()) + rpm_value_bytes(
            values.last(),
        ));
    } else {
        lemma_rpm_values_bytes_snoc(values.drop_first());
        assert(values.drop_first().drop_last() =~= values.drop_last().drop_first());
        assert(values.drop_first().last() == values.last());
        assert(rpm_values_bytes(values) =~= rpm_values_bytes(values.drop_last()) + rpm_value_bytes(
            values.last(),
        ));
    }
}

impl Rpm {
    pub const MIN_PAYLOAD_SIZE: usize = 3;

    /// Builds an RPM packet from one to nineteen values.
    pub fn new(rpm_source_id: u8, rpm_values: &[i32]) -> (r: Result<Self, CrsfParsingError>)
        ensures
            1 <= rpm_values@.len() <= 19 ==> (r matches Ok(p) && p.rpm_source_id == rpm_source_id
                && p.rpm_values@ == rpm_values@),
            !(1 <= rpm_values@.len() <= 19) ==> r == Err::<Self, CrsfParsingError>(
                CrsfParsingError::InvalidPayloadLength,
            ),
    {
        if rpm_values.len() == 0 || rpm_values.len() > 19 {
            return Err(CrsfParsingError::InvalidPayloadLength);
        }
        let values = vstd::slice::slice_to_vec(rpm_values);
        Ok(Self { rpm_source_id, rpm_values: values })
    }

    /// The RPM values.
    pub fn rpm_values(&self) -> (r: &[i32])
        ensures
            r@ == self.rpm_values@,
    {
        self.rpm_values.as_slice()
    }
}

impl CrsfPacket for Rpm {
    open spec fn spec_packet_type() -> PacketType {
        PacketType::Rpm
    }

    open spec fn spec_min_payload_size() -> usize {
        3
    }

    open spec fn spec_to_bytes(self) -> Seq<u8> {
        seq![self.rpm_source_id] + rpm_values_bytes(self.rpm_values@)
    }

    open spec fn from_bytes_post(data: Seq<u8>, r: Result<Self, CrsfParsingError>) -> bool {
        if data.len() >= 3 && (data.len() - 1) / 3 <= 19 {
            &&& r matches Ok(p)
            &&& p.rpm_source_id == data[0]
            &&& p.rpm_values@ == rpm_values_of(data.skip(1))
        } else {
            r == Err::<Self, CrsfParsingError>(CrsfParsingError::InvalidPayloadLength)
        }
    }

    fn packet_type() -> (t: PacketType) {
        PacketType::Rpm
    }

    fn min_payload_size() -> (n: usize) {
        3
    }

    fn to_bytes(&self, buffer: &mut [u8]) -> (r: Result<usize, CrsfParsingError>) {
        let n = self.rpm_values.len();
        let buf_len = buffer.len();
        proof {
            lemma_rpm_values_bytes_len(self.rpm_values@);
        }
        if buf_len < 1 || (buf_len - 1) / 3 < n {
            proof {
                assert(!(buf_len >= 1 + 3 * n)) by (nonlinear_arith)
                    requires
                        buf_len < 1 || (buf_len - 1) / 3 < n,
                ;
            }
            return Err(CrsfParsingError::BufferOverflow);
        }
        proof {
            assert(1 + 3 * n <= buf_len) by (nonlinear_arith)
                requires
                    buf_len >= 1 && (buf_len - 1) / 3 >= n,
            ;
        }
        buffer[0] = self.rpm_source_id;
        let mut i: usize = 0;
        while i < n
            invariant
                0 <= i <= n,
                n == self.rpm_values@.len(),
                buffer@.len() == old(buffer)@.len(),
                buffer@.len() == buf_len,
                1 + 3 * n <= buf_len,
                buffer@[0] == self.rpm_source_id,
                buffer@.subrange(1, 1 + 3 * i as int) =~= rpm_values_bytes(
                    self.rpm_values@.subrange(0, i as int),
                ),
                forall|m: int| 1 + 3 * i <= m < buffer@.len() ==> buffer@[m] == old(buffer)@[m],
            decreases n - i,
        {
            let (_, b1, b2, b3) = i32_to_be(self.rpm_values[i]);
            buffer[1 + 3 * i] = b1;
            buffer[1 + 3 * i + 1] = b2;
            buffer[1 + 3 * i + 2] = b3;
            proof {
                lemma_rpm_values_bytes_len(self.rpm_values@.subrange(0, i as int));
                lemma_rpm_values_bytes_snoc(self.rpm_values@.subrange(0, i + 1));
                assert(self.rpm_values@.subrange(0, i + 1).drop_last() =~= self.rpm_values@.subrange(
                    0,
                    i as int,
                ));
                assert(buffer@.subrange(1, 1 + 3 * (i + 1)) =~= rpm_values_bytes(
                    self.rpm_values@.subrange(0, i as int),
                ) + rpm_value_bytes(self.rpm_values@[i as int]));
            }
            i += 1;
        }
        proof {
            assert(self.rpm_values@.subrange(0, n as int) =~= self.rpm_values@);
            assert(buffer@ =~= self.spec_to_bytes() + old(buffer)@.skip(1 + 3 * n as int));
        }
        Ok(1 + 3 * n)
    }

    fn from_bytes(data: &[u8]) -> (r: Result<Self, CrsfParsingError>) {
        if data.len() < 3 {
            return Err(CrsfParsingError::InvalidPayloadLength);
        }
        let dlen = data.len();
        let count = (dlen - 1) / 3;
        if count > 19 {
            return Err(CrsfParsingError::InvalidPayloadLength);
        }
        proof {
            assert(1 + 3 * count <= dlen) by (nonlinear_arith)
                requires
                    dlen >= 3 && count == (dlen - 1) / 3,
            ;
        }
        let rpm_source_id = data[0];
        let mut values: Vec<i32> = Vec::new();
        let mut i: usize = 0;
        while i < count
            invariant
                0 <= i <= count,
                count == (data@.len() - 1) / 3,
                data@.len() == dlen,
                1 + 3 * count <= dlen,
                values@.len() == i,
                values@ + rpm_values_of(data@.skip(1 + 3 * i as int)) == rpm_values_of(
                    data@.skip(1),
                ),
            decreases count - i,
        {
            let b0 = data[1 + 3 * i];
            let b1 = data[1 + 3 * i + 1];
            let b2 = data[1 + 3 * i + 2];
            let u = u32_from_be(0, b0, b1, b2);
            let v: i32 = if u >= 0x80_0000 {
                ((u as i64) - 0x100_0000) as i32
            } else {
                u as i32
            };
            proof {
                let rest = data@.skip(1 + 3 * i as int);
                assert(rest.len() >= 3);
                assert(rest[0] == data@[1 + 3 * i as int] && rest[1] == data@[1 + 3 * i + 1] && rest[2]
                    == data@[1 + 3 * i + 2]);
                assert(v == i24_of_be(rest[0], rest[1], rest[2]));
                assert(rest.skip(3) =~= data@.skip(1 + 3 * (i + 1)));
                assert(values@.push(v) + rpm_values_of(data@.skip(1 + 3 * (i + 1))) =~= values@ + (
                seq![v] + rpm_values_of(rest.skip(3))));
            }
            values.push(v);
            i += 1;
        }
        proof {
            assert(data@.skip(1 + 3 * count as int).len() < 3);
            assert(values@ =~= rpm_values_of(data@.skip(1)));
        }
        Ok(Self { rpm_source_id, rpm_values: values })
    }
}


/// Reading back the bytes a list of RPM values encodes gives the list
/// back, for values that fit the 24-bit wire field.
pub proof fn lemma_rpm_values_round_trip(values: Seq<i32>)
    requires
        forall|i: int| 0 <= i < values.len() ==> -0x80_0000 <= #[trigger] values[i] < 0x80_0000,
    ensures
        rpm_values_of(rpm_values_bytes(values)) == values,
    decreases values.len(),
{
    broadcast use crate::wire::lemma_i24_be_round_trip;

    lemma_rpm_values_bytes_len(values);
    if values.len() > 0 {
        let w = rpm_values_bytes(values);
        lemma_rpm_values_bytes_len(values.drop_first());
        assert(w.skip(3) =~= rpm_values_bytes(values.drop_first()));
        lemma_rpm_values_round_trip(values.drop_first());
        assert(rpm_values_of(w) =~= values);
    }
}

/// Decoding the payload this record encodes gives the record back, for
/// one to nineteen values that fit the 24-bit wire field.
pub proof fn lemma_rpm_round_trip(x: Rpm, r: Result<Rpm, CrsfParsingError>)
    requires
        1 <= x.rpm_values@.len() <= 19,
        forall|i: int|
            0 <= i < x.rpm_values@.len() ==> -0x80_0000 <= #[trigger] x.rpm_values@[i] < 0x80_0000,
        Rpm::from_bytes_post(x.spec_to_bytes(), r),
    ensures
        r matches Ok(p) && p.rpm_source_id == x.rpm_source_id && p.rpm_values@ == x.rpm_values@,
{
    let w = x.spec_to_bytes();
    lemma_rpm_values_bytes_len(x.rpm_values@);
    let n = x.rpm_values@.len() as int;
    assert(w.len() == 1 + 3 * n);
    assert((w.len() - 1) / 3 == n) by (nonlinear_arith)
        requires
            w.len() == 1 + 3 * n && n >= 0,
    ;
    assert(w.skip(1) =~= rpm_values_bytes(x.rpm_values@));
    lemma_rpm_values_round_trip(x.rpm_values@);
}

} // verus!

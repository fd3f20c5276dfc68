use crate::error::CrsfParsingError;
use crate::packets::CrsfPacket;
use crate::packets::PacketType;
use crate::wire::{u16_from_be, u16_hi, u16_lo, u16_of_be, u16_to_be};
use vstd::prelude::*;

verus! {

/// Voltage telemetry for up to twenty-nine cells or sources, in
/// millivolts, each an unsigned 16-bit big-endian field.
#[derive(Clone, Debug, PartialEq)]
pub struct Voltages {
    /// Identifies the source of the voltages.
    pub voltage_source_id: u8,
    /// Up to twenty-nine voltages in millivolts.
    pub voltage_values: Vec<u16>,
}

/// The wire bytes of a list of voltages.
pub open spec fn voltage_values_bytes(values: Seq<u16>) -> Seq<u8>
    decreases values.len(),
{
    if values.len() == 0 {
        Seq::empty()
    } else {
        seq![u16_hi(values[0]), u16_lo(values[0])] + voltage_values_bytes(
            values.drop_first(),
        )
    }
}

/// The voltages read from the bytes after the source id, two at a
/// time; a trailing single byte is ignored.
pub open spec fn voltage_values_of(data: Seq<u8>) -> Seq<u16>
    decreases data.len(),
{
    if data.len() < 2 {
        Seq::empty()
    } else {
        seq![u16_of_be(data[0], data[1])] + voltage_values_of(data.skip(2))
    }
}

pub proof fn lemma_voltage_values_bytes_len(values: Seq<u16>)
    ensures
        voltage_values_bytes(values).len() == 2 * values.len(),
    decreases values.len(),
{
    if values.len() > 0 {
        lemma_voltage_values_bytes_len(values.drop_first());
    }
}

pub proof fn lemma_voltage_values_bytes_snoc(values: Seq<u16>)
    requires
        values.len() > 0,
    ensures
        voltage_values_bytes(values) == voltage_values_bytes(values.drop_last()) + seq![
            u16_hi(values.last()),
            u16_lo(values.last()),
        ],
    decreases values.len(),
{
    if values.len() == 1 {
        assert(values.drop_last() =~= Seq::<u16>::empty());
        assert(values.drop_first() =~= Seq::<u16>::empty());
        assert(voltage_values_bytes(Seq::<u16>::empty()) == Seq::<u8>::empty());
        assert(voltage_values_bytes(values) =~= voltage_values_bytes(values.drop_last()) + seq![
            u16_hi(values.last()),
            u16_lo(values.last()),
        ]);
    } else {
        lemma_voltage_values_bytes_snoc(values.drop_first());
        assert(values.drop_first().drop_last() =~= values.drop_last().drop_first());
        assert(values.drop_first().last() == values.last());
        assert(voltage_values_bytes(values) =~= voltage_values_bytes(values.drop_last()) + seq![
            u16_hi(values.last()),
            u16_lo(values.last()),
        ]);
    }
}

impl Voltages {
    pub const MIN_PAYLOAD_SIZE: usize = 3;

    /// Builds a voltages packet from up to twenty-nine values.
    pub fn new(voltage_source_id: u8, voltage_values: &[u16]) -> (r: Result<Self, CrsfParsingError>)
        ensures
            voltage_values@.len() <= 29 ==> (r matches Ok(p) && p.voltage_source_id
                == voltage_source_id && p.voltage_values@ == voltage_values@),
            voltage_values@.len() > 29 ==> r == Err::<Self, CrsfParsingError>(
                CrsfParsingError::InvalidPayloadLength,
            ),
    {
        if voltage_values.len() > 29 {
            return Err(CrsfParsingError::InvalidPayloadLength);
        }
        let values = vstd::slice::slice_to_vec(voltage_values);
        Ok(Self { voltage_source_id, voltage_values: values })
    }

    /// The voltage values.
    pub fn voltage_values(&self) -> (r: &[u16])
        ensures
            r@ == self.voltage_values@,
    {
        self.voltage_values.as_slice()
    }
}

impl CrsfPacket for Voltages {
    open spec fn spec_packet_type() -> PacketType {
        PacketType::Voltages
    }

    open spec fn spec_min_payload_size() -> usize {
        3
    }

    open spec fn spec_to_bytes(self) -> Seq<u8> {
        seq![self.voltage_source_id] + voltage_values_bytes(self.voltage_values@)
    }

    open spec fn from_bytes_post(data: Seq<u8>, r: Result<Self, CrsfParsingError>) -> bool {
        if data.len() >= 3 && (data.len() - 1) / 2 <= 29 {
            &&& r matches Ok(p)
            &&& p.voltage_source_id == data[0]
            &&& p.voltage_values@ == voltage_values_of(data.skip(1))
        } else {
            r == Err::<Self, CrsfParsingError>(CrsfParsingError::InvalidPayloadLength)
        }
    }

    fn packet_type() -> (t: PacketType) {
        PacketType::Voltages
    }

    fn min_payload_size() -> (n: usize) {
        3
    }

    fn to_bytes(&self, buffer: &mut [u8]) -> (r: Result<usize, CrsfParsingError>) {
        let n = self.voltage_values.len();
        let buf_len = buffer.len();
        proof {
            lemma_voltage_values_bytes_len(self.voltage_values@);
        }
        if buf_len < 1 || (buf_len - 1) / 2 < n {
            proof {
                assert(!(buf_len >= 1 + 2 * n)) by (nonlinear_arith)
                    requires
                        buf_len < 1 || (buf_len - 1) / 2 < n,
                ;
            }
            return Err(CrsfParsingError::BufferOverflow);
        }
        proof {
            assert(1 + 2 * n <= buf_len) by (nonlinear_arith)
                requires
                    buf_len >= 1 && (buf_len - 1) / 2 >= n,
            ;
        }
        buffer[0] = self.voltage_source_id;
        let mut i: usize = 0;
        while i < n
            invariant
                0 <= i <= n,
                n == self.voltage_values@.len(),
                buffer@.len() == old(buffer)@.len(),
                buffer@.len() == buf_len,
                1 + 2 * n <= buf_len,
                buffer@[0] == self.voltage_source_id,
                buffer@.subrange(1, 1 + 2 * i as int) =~= voltage_values_bytes(
                    self.voltage_values@.subrange(0, i as int),
                ),
                forall|m: int| 1 + 2 * i <= m < buffer@.len() ==> buffer@[m] == old(buffer)@[m],
            decreases n - i,
        {
            let (hi, lo) = u16_to_be(self.voltage_values[i]);
            buffer[1 + 2 * i] = hi;
            buffer[1 + 2 * i + 1] = lo;
            proof {
                lemma_voltage_values_bytes_len(self.voltage_values@.subrange(0, i as int));
                lemma_voltage_values_bytes_snoc(self.voltage_values@.subrange(0, i + 1));
                assert(self.voltage_values@.subrange(0, i + 1).drop_last()
                    =~= self.voltage_values@.subrange(0, i as int));
                assert(buffer@.subrange(1, 1 + 2 * (i + 1)) =~= voltage_values_bytes(
                    self.voltage_values@.subrange(0, i as int),
                ) + seq![hi, lo]);
            }
            i += 1;
        }
        proof {
            assert(self.voltage_values@.subrange(0, n as int) =~= self.voltage_values@);
            assert(buffer@ =~= self.spec_to_bytes() + old(buffer)@.skip(1 + 2 * n as int));
        }
        Ok(1 + 2 * n)
    }

    fn from_bytes(data: &[u8]) -> (r: Result<Self, CrsfParsingError>) {
        if data.len() < 3 {
            return Err(CrsfParsingError::InvalidPayloadLength);
        }
        let dlen = data.len();
        let count = (dlen - 1) / 2;
        if count > 29 {
            return Err(CrsfParsingError::InvalidPayloadLength);
        }
        proof {
            assert(1 + 2 * count <= dlen) by (nonlinear_arith)
                requires
                    dlen >= 3 && count == (dlen - 1) / 2,
            ;
        }
        let voltage_source_id = data[0];
        let mut values: Vec<u16> = Vec::new();
        let mut i: usize = 0;
        while i < count
            invariant
                0 <= i <= count,
                count == (data@.len() - 1) / 2,
                data@.len() == dlen,
                1 + 2 * count <= dlen,
                values@.len() == i,
                values@ + voltage_values_of(data@.skip(1 + 2 * i as int)) == voltage_values_of(
                    data@.skip(1),
                ),
            decreases count - i,
        {
            let hi = data[1 + 2 * i];
            let lo = data[1 + 2 * i + 1];
            let v = u16_from_be(hi, lo);
            proof {
                let rest = data@.skip(1 + 2 * i as int);
                assert(rest.len() >= 2);
                assert(rest[0] == data@[1 + 2 * i as int] && rest[1] == data@[1 + 2 * i + 1]);
                assert(v == u16_of_be(rest[0], rest[1]));
                assert(rest.skip(2) =~= data@.skip(1 + 2 * (i + 1)));
                assert(values@.push(v) + voltage_values_of(data@.skip(1 + 2 * (i + 1))) =~= values@ + (
                seq![v] + voltage_values_of(rest.skip(2))));
            }
            values.push(v);
            i += 1;
        }
        proof {
            assert(data@.skip(1 + 2 * count as int).len() < 2);
            assert(values@ =~= voltage_values_of(data@.skip(1)));
        }
        Ok(Self { voltage_source_id, voltage_values: values })
    }
}


/// Reading back the bytes a list of voltages encodes gives the list back.
pub proof fn lemma_voltage_values_round_trip(values: Seq<u16>)
    ensures
        voltage_values_of(voltage_values_bytes(values)) == values,
    decreases values.len(),
{
    broadcast use crate::wire::lemma_u16_be_round_trip;

    lemma_voltage_values_bytes_len(values);
    if values.len() > 0 {
        let w = voltage_values_bytes(values);
        lemma_voltage_values_bytes_len(values.drop_first());
        assert(w.skip(2) =~= voltage_values_bytes(values.drop_first()));
        lemma_voltage_values_round_trip(values.drop_first());
        assert(voltage_values_of(w) =~= values);
    }
}

/// Decoding the payload this record encodes gives the record back, for
/// one to twenty-nine values.
pub proof fn lemma_voltages_round_trip(x: Voltages, r: Result<Voltages, CrsfParsingError>)
    requires
        1 <= x.voltage_values@.len() <= 29,
        Voltages::from_bytes_post(x.spec_to_bytes(), r),
    ensures
        r matches Ok(p) && p.voltage_source_id == x.voltage_source_id && p.voltage_values@
            == x.voltage_values@,
{
    let w = x.spec_to_bytes();
    lemma_voltage_values_bytes_len(x.voltage_values@);
    let n = x.voltage_values@.len() as int;
    assert(w.len() == 1 + 2 * n);
    assert((w.len() - 1) / 2 == n) by (nonlinear_arith)
        requires
            w.len() == 1 + 2 * n && n >= 0,
    ;
    assert(w.skip(1) =~= voltage_values_bytes(x.voltage_values@));
    lemma_voltage_values_round_trip(x.voltage_values@);
}

} // verus!

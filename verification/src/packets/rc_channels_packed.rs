use crate::error::CrsfParsingError;
use crate::packets::CrsfPacket;
use crate::packets::PacketType;
use vstd::prelude::*;

verus! {

/// Sixteen RC channels, each an 11-bit value, packed least significant
/// bit first into twenty-two bytes with no padding.
///
/// The value 992 is the protocol center; a value converts to
/// microseconds as `(x - 992) * 5 / 8 + 1500`. In case of a failsafe
/// this frame is no longer sent.
#[derive(Debug, PartialEq, Clone)]
pub struct RcChannelsPacked(pub [u16; 16]);

/// The twenty-two wire bytes of sixteen channel values: each byte is the
/// OR of shifted fragments of up to two adjacent channels.
pub open spec fn packed_bytes(ch: Seq<u16>) -> Seq<u8>
    recommends
        ch.len() == 16,
{
    seq![
        (ch[0]) as u8,
        ((ch[0] >> 8) | (ch[1] << 3)) as u8,
        ((ch[1] >> 5) | (ch[2] << 6)) as u8,
        (ch[2] >> 2) as u8,
        ((ch[2] >> 10) | (ch[3] << 1)) as u8,
        ((ch[3] >> 7) | (ch[4] << 4)) as u8,
        ((ch[4] >> 4) | (ch[5] << 7)) as u8,
        (ch[5] >> 1) as u8,
        ((ch[5] >> 9) | (ch[6] << 2)) as u8,
        ((ch[6] >> 6) | (ch[7] << 5)) as u8,
        (ch[7] >> 3) as u8,
        (ch[8]) as u8,
        ((ch[8] >> 8) | (ch[9] << 3)) as u8,
        ((ch[9] >> 5) | (ch[10] << 6)) as u8,
        (ch[10] >> 2) as u8,
        ((ch[10] >> 10) | (ch[11] << 1)) as u8,
        ((ch[11] >> 7) | (ch[12] << 4)) as u8,
        ((ch[12] >> 4) | (ch[13] << 7)) as u8,
        (ch[13] >> 1) as u8,
        ((ch[13] >> 9) | (ch[14] << 2)) as u8,
        ((ch[14] >> 6) | (ch[15] << 5)) as u8,
        (ch[15] >> 3) as u8,
    ]
}

/// The sixteen channel values read from twenty-two wire bytes: each
/// channel ORs the shifted fragments of up to three source bytes and
/// masks to eleven bits.
pub open spec fn channels_of(data: Seq<u8>) -> Seq<u16>
    recommends
        data.len() == 22,
{
    let d = Seq::<u16>::new(22, |i: int| data[i] as u16);
    seq![
        (d[0] | (d[1] << 8)) & 0x7FF,
        ((d[1] >> 3) | (d[2] << 5)) & 0x7FF,
        ((d[2] >> 6) | (d[3] << 2) | (d[4] << 10)) & 0x7FF,
        ((d[4] >> 1) | (d[5] << 7)) & 0x7FF,
        ((d[5] >> 4) | (d[6] << 4)) & 0x7FF,
        ((d[6] >> 7) | (d[7] << 1) | (d[8] << 9)) & 0x7FF,
        ((d[8] >> 2) | (d[9] << 6)) & 0x7FF,
        ((d[9] >> 5) | (d[10] << 3)) & 0x7FF,
        (d[11] | (d[12] << 8)) & 0x7FF,
        ((d[12] >> 3) | (d[13] << 5)) & 0x7FF,
        ((d[13] >> 6) | (d[14] << 2) | (d[15] << 10)) & 0x7FF,
        ((d[15] >> 1) | (d[16] << 7)) & 0x7FF,
        ((d[16] >> 4) | (d[17] << 4)) & 0x7FF,
        ((d[17] >> 7) | (d[18] << 1) | (d[19] << 9)) & 0x7FF,
        ((d[19] >> 2) | (d[20] << 6)) & 0x7FF,
        ((d[20] >> 5) | (d[21] << 3)) & 0x7FF,
    ]
}

impl RcChannelsPacked {
    pub const MIN_PAYLOAD_SIZE: usize = 22;
}

impl CrsfPacket for RcChannelsPacked {
    open spec fn spec_packet_type() -> PacketType {
        PacketType::RcChannelsPacked
    }

    open spec fn spec_min_payload_size() -> usize {
        22
    }

    open spec fn spec_to_bytes(self) -> Seq<u8> {
        packed_bytes(self.0@)
    }

    open spec fn from_bytes_post(data: Seq<u8>, r: Result<Self, CrsfParsingError>) -> bool {
        if data.len() == 22 {
            &&& r matches Ok(p)
            &&& p.0@ == channels_of(data)
        } else {
            r == Err::<Self, CrsfParsingError>(CrsfParsingError::InvalidPayloadLength)
        }
    }

    fn packet_type() -> (t: PacketType) {
        PacketType::RcChannelsPacked
    }

    fn min_payload_size() -> (n: usize) {
        22
    }

    fn to_bytes(&self, buffer: &mut [u8]) -> (r: Result<usize, CrsfParsingError>) {
        if buffer.len() < 22 {
            return Err(CrsfParsingError::BufferOverflow);
        }
        let ch = &self.0;
        buffer[0] = (ch[0]) as u8;
        buffer[1] = ((ch[0] >> 8) | (ch[1] << 3)) as u8;
        buffer[2] = ((ch[1] >> 5) | (ch[2] << 6)) as u8;
        buffer[3] = (ch[2] >> 2) as u8;
        buffer[4] = ((ch[2] >> 10) | (ch[3] << 1)) as u8;
        buffer[5] = ((ch[3] >> 7) | (ch[4] << 4)) as u8;
        buffer[6] = ((ch[4] >> 4) | (ch[5] << 7)) as u8;
        buffer[7] = (ch[5] >> 1) as u8;
        buffer[8] = ((ch[5] >> 9) | (ch[6] << 2)) as u8;
        buffer[9] = ((ch[6] >> 6) | (ch[7] << 5)) as u8;
        buffer[10] = (ch[7] >> 3) as u8;
        buffer[11] = (ch[8]) as u8;
        buffer[12] = ((ch[8] >> 8) | (ch[9] << 3)) as u8;
        buffer[13] = ((ch[9] >> 5) | (ch[10] << 6)) as u8;
        buffer[14] = (ch[10] >> 2) as u8;
        buffer[15] = ((ch[10] >> 10) | (ch[11] << 1)) as u8;
        buffer[16] = ((ch[11] >> 7) | (ch[12] << 4)) as u8;
        buffer[17] = ((ch[12] >> 4) | (ch[13] << 7)) as u8;
        buffer[18] = (ch[13] >> 1) as u8;
        buffer[19] = ((ch[13] >> 9) | (ch[14] << 2)) as u8;
        buffer[20] = ((ch[14] >> 6) | (ch[15] << 5)) as u8;
        buffer[21] = (ch[15] >> 3) as u8;
        proof {
            assert(buffer@ =~= self.spec_to_bytes() + old(buffer)@.skip(22));
        }
        Ok(22)
    }

    fn from_bytes(data: &[u8]) -> (r: Result<Self, CrsfParsingError>) {
        if data.len() != 22 {
            return Err(CrsfParsingError::InvalidPayloadLength);
        }
        let d0 = data[0] as u16;
        let d1 = data[1] as u16;
        let d2 = data[2] as u16;
        let d3 = data[3] as u16;
        let d4 = data[4] as u16;
        let d5 = data[5] as u16;
        let d6 = data[6] as u16;
        let d7 = data[7] as u16;
        let d8 = data[8] as u16;
        let d9 = data[9] as u16;
        let d10 = data[10] as u16;
        let d11 = data[11] as u16;
        let d12 = data[12] as u16;
        let d13 = data[13] as u16;
        let d14 = data[14] as u16;
        let d15 = data[15] as u16;
        let d16 = data[16] as u16;
        let d17 = data[17] as u16;
        let d18 = data[18] as u16;
        let d19 = data[19] as u16;
        let d20 = data[20] as u16;
        let d21 = data[21] as u16;
        let ch: [u16; 16] = [
            (d0 | (d1 << 8)) & 0x7FF,
            ((d1 >> 3) | (d2 << 5)) & 0x7FF,
            ((d2 >> 6) | (d3 << 2) | (d4 << 10)) & 0x7FF,
            ((d4 >> 1) | (d5 << 7)) & 0x7FF,
            ((d5 >> 4) | (d6 << 4)) & 0x7FF,
            ((d6 >> 7) | (d7 << 1) | (d8 << 9)) & 0x7FF,
            ((d8 >> 2) | (d9 << 6)) & 0x7FF,
            ((d9 >> 5) | (d10 << 3)) & 0x7FF,
            (d11 | (d12 << 8)) & 0x7FF,
            ((d12 >> 3) | (d13 << 5)) & 0x7FF,
            ((d13 >> 6) | (d14 << 2) | (d15 << 10)) & 0x7FF,
            ((d15 >> 1) | (d16 << 7)) & 0x7FF,
            ((d16 >> 4) | (d17 << 4)) & 0x7FF,
            ((d17 >> 7) | (d18 << 1) | (d19 << 9)) & 0x7FF,
            ((d19 >> 2) | (d20 << 6)) & 0x7FF,
            ((d20 >> 5) | (d21 << 3)) & 0x7FF,
        ];
        proof {
            assert(ch@ =~= channels_of(data@));
        }
        Ok(RcChannelsPacked(ch))
    }
}

/// Bit-packing round trip: for channel values that fit eleven bits,
/// packing and unpacking recovers every channel exactly, and packing
/// always produces exactly twenty-two bytes.
pub proof fn lemma_channels_round_trip(ch: Seq<u16>)
    requires
        ch.len() == 16,
        forall|i: int| 0 <= i < 16 ==> ch[i] <= 0x7FF,
    ensures
        packed_bytes(ch).len() == 22,
        channels_of(packed_bytes(ch)) =~= ch,
{
    let data = packed_bytes(ch);
    let c0 = ch[0];
    let c1 = ch[1];
    let c2 = ch[2];
    let c3 = ch[3];
    let c4 = ch[4];
    let c5 = ch[5];
    let c6 = ch[6];
    let c7 = ch[7];
    let c8 = ch[8];
    let c9 = ch[9];
    let c10 = ch[10];
    let c11 = ch[11];
    let c12 = ch[12];
    let c13 = ch[13];
    let c14 = ch[14];
    let c15 = ch[15];
    assert((((c0 as u8) as u16) | ((((c0 >> 8) | (c1 << 3)) as u8 as u16) << 8)) & 0x7FF == c0)
        by (bit_vector)
        requires
            c0 <= 0x7FF && c1 <= 0x7FF,
    ;
    assert((((((c0 >> 8) | (c1 << 3)) as u8 as u16) >> 3) | ((((c1 >> 5) | (c2 << 6)) as u8 as u16)
        << 5)) & 0x7FF == c1) by (bit_vector)
        requires
            c0 <= 0x7FF && c1 <= 0x7FF && c2 <= 0x7FF,
    ;
    assert((((((c1 >> 5) | (c2 << 6)) as u8 as u16) >> 6) | (((c2 >> 2) as u8 as u16) << 2) | ((((c2
        >> 10) | (c3 << 1)) as u8 as u16) << 10)) & 0x7FF == c2) by (bit_vector)
        requires
            c1 <= 0x7FF && c2 <= 0x7FF && c3 <= 0x7FF,
    ;
    assert((((((c2 >> 10) | (c3 << 1)) as u8 as u16) >> 1) | ((((c3 >> 7) | (c4 << 4)) as u8 as u16)
        << 7)) & 0x7FF == c3) by (bit_vector)
        requires
            c2 <= 0x7FF && c3 <= 0x7FF && c4 <= 0x7FF,
    ;
    assert((((((c3 >> 7) | (c4 << 4)) as u8 as u16) >> 4) | ((((c4 >> 4) | (c5 << 7)) as u8 as u16)
        << 4)) & 0x7FF == c4) by (bit_vector)
        requires
            c3 <= 0x7FF && c4 <= 0x7FF && c5 <= 0x7FF,
    ;
    assert((((((c4 >> 4) | (c5 << 7)) as u8 as u16) >> 7) | (((c5 >> 1) as u8 as u16) << 1) | ((((c5
        >> 9) | (c6 << 2)) as u8 as u16) << 9)) & 0x7FF == c5) by (bit_vector)
        requires
            c4 <= 0x7FF && c5 <= 0x7FF && c6 <= 0x7FF,
    ;
    assert((((((c5 >> 9) | (c6 << 2)) as u8 as u16) >> 2) | ((((c6 >> 6) | (c7 << 5)) as u8 as u16)
        << 6)) & 0x7FF == c6) by (bit_vector)
        requires
            c5 <= 0x7FF && c6 <= 0x7FF && c7 <= 0x7FF,
    ;
    assert((((((c6 >> 6) | (c7 << 5)) as u8 as u16) >> 5) | (((c7 >> 3) as u8 as u16) << 3)) & 0x7FF
        == c7) by (bit_vector)
        requires
            c6 <= 0x7FF && c7 <= 0x7FF,
    ;
    assert((((c8 as u8) as u16) | ((((c8 >> 8) | (c9 << 3)) as u8 as u16) << 8)) & 0x7FF == c8)
        by (bit_vector)
        requires
            c8 <= 0x7FF && c9 <= 0x7FF,
    ;
    assert((((((c8 >> 8) | (c9 << 3)) as u8 as u16) >> 3) | ((((c9 >> 5) | (c10 << 6)) as u8 as u16)
        << 5)) & 0x7FF == c9) by (bit_vector)
        requires
            c8 <= 0x7FF && c9 <= 0x7FF && c10 <= 0x7FF,
    ;
    assert((((((c9 >> 5) | (c10 << 6)) as u8 as u16) >> 6) | (((c10 >> 2) as u8 as u16) << 2) | ((((
    c10 >> 10) | (c11 << 1)) as u8 as u16) << 10)) & 0x7FF == c10) by (bit_vector)
        requires
            c9 <= 0x7FF && c10 <= 0x7FF && c11 <= 0x7FF,
    ;
    assert((((((c10 >> 10) | (c11 << 1)) as u8 as u16) >> 1) | ((((c11 >> 7) | (c12
        << 4)) as u8 as u16) << 7)) & 0x7FF == c11) by (bit_vector)
        requires
            c10 <= 0x7FF && c11 <= 0x7FF && c12 <= 0x7FF,
    ;
    assert((((((c11 >> 7) | (c12 << 4)) as u8 as u16) >> 4) | ((((c12 >> 4) | (c13
        << 7)) as u8 as u16) << 4)) & 0x7FF == c12) by (bit_vector)
        requires
            c11 <= 0x7FF && c12 <= 0x7FF && c13 <= 0x7FF,
    ;
    assert((((((c12 >> 4) | (c13 << 7)) as u8 as u16) >> 7) | (((c13 >> 1) as u8 as u16) << 1) | ((((
    c13 >> 9) | (c14 << 2)) as u8 as u16) << 9)) & 0x7FF == c13) by (bit_vector)
        requires
            c12 <= 0x7FF && c13 <= 0x7FF && c14 <= 0x7FF,
    ;
    assert((((((c13 >> 9) | (c14 << 2)) as u8 as u16) >> 2) | ((((c14 >> 6) | (c15
        << 5)) as u8 as u16) << 6)) & 0x7FF == c14) by (bit_vector)
        requires
            c13 <= 0x7FF && c14 <= 0x7FF && c15 <= 0x7FF,
    ;
    assert((((((c14 >> 6) | (c15 << 5)) as u8 as u16) >> 5) | (((c15 >> 3) as u8 as u16) << 3))
        & 0x7FF == c15) by (bit_vector)
        requires
            c14 <= 0x7FF && c15 <= 0x7FF,
    ;
    assert forall|i: int| 0 <= i < 16 implies channels_of(data)[i] == ch[i] by {
        assert(channels_of(data).len() == 16);
    }
}


/// Decoding the payload this record encodes gives the record back, for
/// channel values that fit eleven bits.
pub proof fn lemma_rc_channels_round_trip(
    x: RcChannelsPacked,
    r: Result<RcChannelsPacked, CrsfParsingError>,
)
    requires
        forall|i: int| 0 <= i < 16 ==> x.0@[i] <= 0x7FF,
        RcChannelsPacked::from_bytes_post(x.spec_to_bytes(), r),
    ensures
        r == Ok::<RcChannelsPacked, CrsfParsingError>(x),
{
    broadcast use vstd::array::group_array_axioms;

    lemma_channels_round_trip(x.0@);
    match r {
        Ok(p) => {
            assert(p.0@ == channels_of(packed_bytes(x.0@)));
            assert(p.0 =~= x.0);
        },
        Err(_) => {
            assert(false);
        },
    }
}

} // verus!

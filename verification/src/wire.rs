use vstd::prelude::*;

verus! {

// Big-endian views of the multi-byte integers that payloads carry.
// Signed fields travel as their two's-complement bit patterns.

pub open spec fn u16_hi(v: u16) -> u8 {
    (v / 256) as u8
}

pub open spec fn u16_lo(v: u16) -> u8 {
    (v % 256) as u8
}

pub open spec fn u16_of_be(hi: u8, lo: u8) -> u16 {
    (hi * 256 + lo) as u16
}

pub open spec fn i16_bits(v: i16) -> u16 {
    (if v < 0 {
        v + 0x10000
    } else {
        v as int
    }) as u16
}

pub open spec fn i16_of_bits(v: u16) -> i16 {
    (if v >= 0x8000 {
        v - 0x10000
    } else {
        v as int
    }) as i16
}

pub open spec fn u32_byte(v: u32, i: int) -> u8
    recommends
        0 <= i < 4,
{
    if i == 0 {
        (v / 0x1000000) as u8
    } else if i == 1 {
        ((v / 0x10000) % 256) as u8
    } else if i == 2 {
        ((v / 0x100) % 256) as u8
    } else {
        (v % 256) as u8
    }
}

pub open spec fn u32_of_be(b0: u8, b1: u8, b2: u8, b3: u8) -> u32 {
    (b0 * 0x1000000 + b1 * 0x10000 + b2 * 0x100 + b3) as u32
}

pub open spec fn i32_bits(v: i32) -> u32 {
    (if v < 0 {
        v + 0x1_0000_0000
    } else {
        v as int
    }) as u32
}

pub open spec fn i32_of_bits(v: u32) -> i32 {
    (if v >= 0x8000_0000 {
        v - 0x1_0000_0000
    } else {
        v as int
    }) as i32
}

/// The sign-extended value of a 24-bit big-endian field.
pub open spec fn i24_of_be(b0: u8, b1: u8, b2: u8) -> i32 {
    let u = b0 * 0x10000 + b1 * 0x100 + b2;
    (if u >= 0x80_0000 {
        u - 0x100_0000
    } else {
        u
    }) as i32
}

pub open spec fn i8_bits(v: i8) -> u8 {
    (if v < 0 {
        v + 0x100
    } else {
        v as int
    }) as u8
}

pub open spec fn i8_of_bits(v: u8) -> i8 {
    (if v >= 0x80 {
        v - 0x100
    } else {
        v as int
    }) as i8
}

pub fn i8_to_bits(v: i8) -> (r: u8)
    ensures
        r == i8_bits(v),
        i8_of_bits(i8_bits(v)) == v,
{
    if v < 0 {
        ((v as i16) + 0x100) as u8
    } else {
        v as u8
    }
}

pub fn i8_from_bits(v: u8) -> (r: i8)
    ensures
        r == i8_of_bits(v),
        i8_bits(i8_of_bits(v)) == v,
{
    if v >= 0x80 {
        ((v as i16) - 0x100) as i8
    } else {
        v as i8
    }
}

pub fn u16_from_be(hi: u8, lo: u8) -> (r: u16)
    ensures
        r == u16_of_be(hi, lo),
{
    (hi as u16) * 256 + (lo as u16)
}

pub fn u16_to_be(v: u16) -> (r: (u8, u8))
    ensures
        r.0 == u16_hi(v),
        r.1 == u16_lo(v),
        u16_of_be(r.0, r.1) == v,
{
    ((v / 256) as u8, (v % 256) as u8)
}

pub fn i16_from_be(hi: u8, lo: u8) -> (r: i16)
    ensures
        r == i16_of_bits(u16_of_be(hi, lo)),
{
    let u = u16_from_be(hi, lo);
    if u >= 0x8000 {
        ((u as i32) - 0x10000) as i16
    } else {
        u as i16
    }
}

pub fn i16_to_be(v: i16) -> (r: (u8, u8))
    ensures
        r.0 == u16_hi(i16_bits(v)),
        r.1 == u16_lo(i16_bits(v)),
        i16_of_bits(i16_bits(v)) == v,
{
    let u: u16 = if v < 0 {
        ((v as i32) + 0x10000) as u16
    } else {
        v as u16
    };
    u16_to_be(u)
}

pub fn u32_from_be(b0: u8, b1: u8, b2: u8, b3: u8) -> (r: u32)
    ensures
        r == u32_of_be(b0, b1, b2, b3),
{
    (b0 as u32) * 0x1000000 + (b1 as u32) * 0x10000 + (b2 as u32) * 0x100 + (b3 as u32)
}

pub fn u32_to_be(v: u32) -> (r: (u8, u8, u8, u8))
    ensures
        r.0 == u32_byte(v, 0),
        r.1 == u32_byte(v, 1),
        r.2 == u32_byte(v, 2),
        r.3 == u32_byte(v, 3),
        u32_of_be(r.0, r.1, r.2, r.3) == v,
{
    let b0 = (v / 0x1000000) as u8;
    let b1 = ((v / 0x10000) % 256) as u8;
    let b2 = ((v / 0x100) % 256) as u8;
    let b3 = (v % 256) as u8;
    proof {
        assert(b0 * 0x1000000 + b1 * 0x10000 + b2 * 0x100 + b3 == v as int) by (nonlinear_arith)
            requires
                b0 as int == v as int / 0x1000000 && b1 as int == (v as int / 0x10000) % 256
                    && b2 as int == (v as int / 0x100) % 256 && b3 as int == v as int % 256 && v
                    < 0x1_0000_0000,
        ;
    }
    (b0, b1, b2, b3)
}

pub fn i32_from_be(b0: u8, b1: u8, b2: u8, b3: u8) -> (r: i32)
    ensures
        r == i32_of_bits(u32_of_be(b0, b1, b2, b3)),
{
    let u = u32_from_be(b0, b1, b2, b3);
    if u >= 0x8000_0000 {
        ((u as i64) - 0x1_0000_0000) as i32
    } else {
        u as i32
    }
}

pub fn i32_to_bits(v: i32) -> (r: u32)
    ensures
        r == i32_bits(v),
        i32_of_bits(i32_bits(v)) == v,
{
    if v < 0 {
        ((v as i64) + 0x1_0000_0000) as u32
    } else {
        v as u32
    }
}

pub fn i32_to_be(v: i32) -> (r: (u8, u8, u8, u8))
    ensures
        r.0 == u32_byte(i32_bits(v), 0),
        r.1 == u32_byte(i32_bits(v), 1),
        r.2 == u32_byte(i32_bits(v), 2),
        r.3 == u32_byte(i32_bits(v), 3),
        u32_of_be(r.0, r.1, r.2, r.3) == i32_bits(v),
        i32_of_bits(i32_bits(v)) == v,
{
    let u = i32_to_bits(v);
    u32_to_be(u)
}


// Round trips of the conversions: decoding the bytes an encoder produced
// gives the encoded value back.

pub broadcast proof fn lemma_u16_be_round_trip(v: u16)
    ensures
        #[trigger] u16_of_be(u16_hi(v), u16_lo(v)) == v,
{
}

pub broadcast proof fn lemma_i16_bits_round_trip(v: i16)
    ensures
        #[trigger] i16_of_bits(i16_bits(v)) == v,
{
}

pub broadcast proof fn lemma_i8_bits_round_trip(v: i8)
    ensures
        #[trigger] i8_of_bits(i8_bits(v)) == v,
{
}

pub broadcast proof fn lemma_u32_be_round_trip(v: u32)
    ensures
        #[trigger] u32_of_be(u32_byte(v, 0), u32_byte(v, 1), u32_byte(v, 2), u32_byte(v, 3)) == v,
{
    assert(u32_byte(v, 0) * 0x1000000 + u32_byte(v, 1) * 0x10000 + u32_byte(v, 2) * 0x100
        + u32_byte(v, 3) == v as int) by (nonlinear_arith);
}

pub broadcast proof fn lemma_i32_bits_round_trip(v: i32)
    ensures
        #[trigger] i32_of_bits(i32_bits(v)) == v,
{
}

/// The low three bytes of a 32-bit value recover it below 2^24.
pub broadcast proof fn lemma_u24_be_round_trip(v: u32)
    requires
        v < 0x100_0000,
    ensures
        #[trigger] u32_of_be(0, u32_byte(v, 1), u32_byte(v, 2), u32_byte(v, 3)) == v,
{
    assert(u32_byte(v, 1) * 0x10000 + u32_byte(v, 2) * 0x100 + u32_byte(v, 3) == v as int)
        by (nonlinear_arith)
        requires
            v < 0x100_0000,
    ;
}

/// The low three bytes of a signed value's two's-complement pattern
/// recover it when it fits twenty-four bits.
pub broadcast proof fn lemma_i24_be_round_trip(v: i32)
    requires
        -0x80_0000 <= v < 0x80_0000,
    ensures
        #[trigger] i24_of_be(u32_byte(i32_bits(v), 1), u32_byte(i32_bits(v), 2), u32_byte(i32_bits(v), 3))
            == v,
{
    let b = i32_bits(v);
    assert(u32_byte(b, 1) * 0x10000 + u32_byte(b, 2) * 0x100 + u32_byte(b, 3) == b as int
        % 0x100_0000) by (nonlinear_arith);
    if v < 0 {
        assert(b as int % 0x100_0000 == v + 0x100_0000) by (nonlinear_arith)
            requires
                b == v + 0x1_0000_0000 && -0x80_0000 <= v < 0,
        ;
    } else {
        assert(b as int % 0x100_0000 == v) by (nonlinear_arith)
            requires
                b == v && 0 <= v < 0x80_0000,
        ;
    }
}

} // verus!


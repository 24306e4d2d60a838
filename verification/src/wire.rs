//! Little-endian encoding of the multi-byte integers that appear in
//! frames and in the control table.
use vstd::prelude::*;

verus! {

pub open spec fn u16_of_le(b0: u8, b1: u8) -> u16 {
    (b0 as u16) | ((b1 as u16) << 8)
}

pub open spec fn u16_lo(v: u16) -> u8 {
    (v & 0xFF) as u8
}

pub open spec fn u16_hi(v: u16) -> u8 {
    ((v >> 8) & 0xFF) as u8
}

pub open spec fn u32_of_le(b0: u8, b1: u8, b2: u8, b3: u8) -> u32 {
    (b0 as u32) | ((b1 as u32) << 8) | ((b2 as u32) << 16) | ((b3 as u32) << 24)
}

pub open spec fn u32_byte(v: u32, k: int) -> u8 {
    ((v >> (8 * k)) & 0xFF) as u8
}

pub open spec fn i16_of_le(b0: u8, b1: u8) -> i16 {
    u16_of_le(b0, b1) as i16
}

pub open spec fn i32_of_le(b0: u8, b1: u8, b2: u8, b3: u8) -> i32 {
    u32_of_le(b0, b1, b2, b3) as i32
}

/// The two little-endian bytes of a 16-bit value.
pub open spec fn le16_bytes(v: u16) -> Seq<u8> {
    seq![u16_lo(v), u16_hi(v)]
}

/// Reading two little-endian bytes back gives the value they encode.
pub proof fn lemma_u16_le_round_trip(v: u16)
    ensures
        u16_of_le(u16_lo(v), u16_hi(v)) == v,
{
    assert(((v & 0xFF) as u8 as u16) | ((((v >> 8) & 0xFF) as u8 as u16) << 8) == v) by (bit_vector);
}

/// Encoding a value read from two bytes gives the bytes back.
pub proof fn lemma_le_u16_round_trip(b0: u8, b1: u8)
    ensures
        u16_lo(u16_of_le(b0, b1)) == b0,
        u16_hi(u16_of_le(b0, b1)) == b1,
{
    assert(((((b0 as u16) | ((b1 as u16) << 8)) & 0xFF) as u8) == b0) by (bit_vector);
    assert((((((b0 as u16) | ((b1 as u16) << 8)) >> 8) & 0xFF) as u8) == b1) by (bit_vector);
}

pub fn make_u16(b0: u8, b1: u8) -> (r: u16)
    ensures
        r == u16_of_le(b0, b1),
{
    (b0 as u16) | ((b1 as u16) << 8)
}

pub fn u16_low(v: u16) -> (r: u8)
    ensures
        r == u16_lo(v),
{
    (v & 0xFF) as u8
}

pub fn u16_high(v: u16) -> (r: u8)
    ensures
        r == u16_hi(v),
{
    ((v >> 8) & 0xFF) as u8
}

pub fn make_u32(b0: u8, b1: u8, b2: u8, b3: u8) -> (r: u32)
    ensures
        r == u32_of_le(b0, b1, b2, b3),
{
    (b0 as u32) | ((b1 as u32) << 8) | ((b2 as u32) << 16) | ((b3 as u32) << 24)
}

pub fn u32_byte_at(v: u32, k: u32) -> (r: u8)
    requires
        k < 4,
    ensures
        r == u32_byte(v, k as int),
{
    ((v >> (8 * k)) & 0xFF) as u8
}

pub fn make_i16(b0: u8, b1: u8) -> (r: i16)
    ensures
        r == i16_of_le(b0, b1),
{
    make_u16(b0, b1) as i16
}

pub fn make_i32(b0: u8, b1: u8, b2: u8, b3: u8) -> (r: i32)
    ensures
        r == i32_of_le(b0, b1, b2, b3),
{
    make_u32(b0, b1, b2, b3) as i32
}

} // verus!

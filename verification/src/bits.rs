//! Bit-field extraction and little-endian byte composition, with the
//! arithmetic they stand for.

use bit_field::BitField;
use byteorder::{ByteOrder, LittleEndian};
use vstd::prelude::*;

verus! {

/// The bits `start..end` of `x`, shifted down to bit 0.
pub open spec fn bits_of(x: u8, start: usize, end: usize) -> u8 {
    ((x >> start) & (0xffu8 >> ((8 - (end - start)) as usize))) as u8
}

/// Little-endian value of the two bytes `b[0]`, `b[1]`.
pub open spec fn le_u16(b: Seq<u8>) -> u16 {
    ((b[0] as u16) | ((b[1] as u16) << 8u16)) as u16
}

/// Little-endian value of the four bytes `b[0..4]`.
pub open spec fn le_u32(b: Seq<u8>) -> u32 {
    ((b[0] as u32) | ((b[1] as u32) << 8u32) | ((b[2] as u32) << 16u32) | ((b[3] as u32) << 24u32)) as u32
}

/// Little-endian value of the eight bytes `b[0..8]`.
pub open spec fn le_u64(b: Seq<u8>) -> u64 {
    ((b[0] as u64) | ((b[1] as u64) << 8u64) | ((b[2] as u64) << 16u64) | ((b[3] as u64) << 24u64)
        | ((b[4] as u64) << 32u64) | ((b[5] as u64) << 40u64) | ((b[6] as u64) << 48u64)
        | ((b[7] as u64) << 56u64)) as u64
}

/// Byte `i` (counted from the least significant end) of `x`.
pub open spec fn byte_of(x: u64, i: nat) -> u8 {
    ((x >> (8 * i) as u64) & 0xffu64) as u8
}

/// The `n` little-endian bytes of `x`.
pub open spec fn le_bytes(x: u64, n: nat) -> Seq<u8> {
    Seq::new(n, |i: int| byte_of(x, i as nat))
}

/// `BitField::get_bits` of the `bit_field` crate on a `u8`: the bits of `x`
/// in `start..end`, shifted down to bit 0 (zero when the range is empty).
/// The crate panics when `start >= 8`, `end > 8` or `start > end`, which the
/// precondition leaves out.
#[verifier::external_body]
pub fn get_bits_u8(x: u8, start: usize, end: usize) -> (r: u8)
    requires
        start < 8,
        end <= 8,
        start <= end,
    ensures
        r == bits_of(x, start, end),
{
    x.get_bits(start..end)
}

/// `LittleEndian::read_u16` of the `byteorder` crate: the first two bytes of
/// `buf` read as a little-endian integer. The crate panics on a shorter buffer.
#[verifier::external_body]
pub fn read_le_u16(buf: &[u8]) -> (r: u16)
    requires
        buf@.len() >= 2,
    ensures
        r == le_u16(buf@),
{
    LittleEndian::read_u16(buf)
}

/// `LittleEndian::read_u32` of the `byteorder` crate: the first four bytes of
/// `buf` read as a little-endian integer. The crate panics on a shorter buffer.
#[verifier::external_body]
pub fn read_le_u32(buf: &[u8]) -> (r: u32)
    requires
        buf@.len() >= 4,
    ensures
        r == le_u32(buf@),
{
    LittleEndian::read_u32(buf)
}

/// `LittleEndian::read_u64` of the `byteorder` crate: the first eight bytes of
/// `buf` read as a little-endian integer. The crate panics on a shorter buffer.
#[verifier::external_body]
pub fn read_le_u64(buf: &[u8]) -> (r: u64)
    requires
        buf@.len() >= 8,
    ensures
        r == le_u64(buf@),
{
    LittleEndian::read_u64(buf)
}

/// Reading back the little-endian bytes of a value gives the value.
pub proof fn lemma_le_u64_roundtrip(x: u64)
    ensures
        le_u64(le_bytes(x, 8)) == x,
{
    let b = le_bytes(x, 8);
    assert(b[0] == ((x >> 0u64) & 0xffu64) as u8);
    assert(b[1] == ((x >> 8u64) & 0xffu64) as u8);
    assert(b[2] == ((x >> 16u64) & 0xffu64) as u8);
    assert(b[3] == ((x >> 24u64) & 0xffu64) as u8);
    assert(b[4] == ((x >> 32u64) & 0xffu64) as u8);
    assert(b[5] == ((x >> 40u64) & 0xffu64) as u8);
    assert(b[6] == ((x >> 48u64) & 0xffu64) as u8);
    assert(b[7] == ((x >> 56u64) & 0xffu64) as u8);
    let (b0, b1, b2, b3, b4, b5, b6, b7) = (b[0], b[1], b[2], b[3], b[4], b[5], b[6], b[7]);
    assert(((b0 as u64) | ((b1 as u64) << 8u64) | ((b2 as u64) << 16u64) | ((b3 as u64) << 24u64)
        | ((b4 as u64) << 32u64) | ((b5 as u64) << 40u64) | ((b6 as u64) << 48u64)
        | ((b7 as u64) << 56u64)) == x) by (bit_vector)
        requires
            b0 == ((x >> 0u64) & 0xffu64) as u8,
            b1 == ((x >> 8u64) & 0xffu64) as u8,
            b2 == ((x >> 16u64) & 0xffu64) as u8,
            b3 == ((x >> 24u64) & 0xffu64) as u8,
            b4 == ((x >> 32u64) & 0xffu64) as u8,
            b5 == ((x >> 40u64) & 0xffu64) as u8,
            b6 == ((x >> 48u64) & 0xffu64) as u8,
            b7 == ((x >> 56u64) & 0xffu64) as u8,
    ;
}

/// The two low little-endian bytes of a value read back give its low
/// sixteen bits.
pub proof fn lemma_le_u16_roundtrip(x: u64)
    ensures
        le_u16(le_bytes(x, 2)) == x as u16,
{
    let b = le_bytes(x, 2);
    assert(b[0] == ((x >> 0u64) & 0xffu64) as u8);
    assert(b[1] == ((x >> 8u64) & 0xffu64) as u8);
    let (b0, b1) = (b[0], b[1]);
    assert(((b0 as u16) | ((b1 as u16) << 8u16)) == x as u16) by (bit_vector)
        requires
            b0 == ((x >> 0u64) & 0xffu64) as u8,
            b1 == ((x >> 8u64) & 0xffu64) as u8,
    ;
}

/// The four low little-endian bytes of a value read back give its low
/// thirty-two bits.
pub proof fn lemma_le_u32_roundtrip(x: u64)
    ensures
        le_u32(le_bytes(x, 4)) == x as u32,
{
    let b = le_bytes(x, 4);
    assert(b[0] == ((x >> 0u64) & 0xffu64) as u8);
    assert(b[1] == ((x >> 8u64) & 0xffu64) as u8);
    assert(b[2] == ((x >> 16u64) & 0xffu64) as u8);
    assert(b[3] == ((x >> 24u64) & 0xffu64) as u8);
    let (b0, b1, b2, b3) = (b[0], b[1], b[2], b[3]);
    assert(((b0 as u32) | ((b1 as u32) << 8u32) | ((b2 as u32) << 16u32) | ((b3 as u32) << 24u32))
        == x as u32) by (bit_vector)
        requires
            b0 == ((x >> 0u64) & 0xffu64) as u8,
            b1 == ((x >> 8u64) & 0xffu64) as u8,
            b2 == ((x >> 16u64) & 0xffu64) as u8,
            b3 == ((x >> 24u64) & 0xffu64) as u8,
    ;
}

/// The fields of a ModR/M or SIB byte as numbers: bits 6..8 are `b / 64`,
/// bits 3..6 are `(b / 8) % 8` and bits 0..3 are `b % 8`.
pub proof fn lemma_byte_field_values(b: u8)
    ensures
        bits_of(b, 6, 8) == b / 64,
        bits_of(b, 3, 6) == (b / 8) % 8,
        bits_of(b, 0, 3) == b % 8,
{
    assert(((b >> 6usize) & (0xffu8 >> 6usize)) == b / 64) by (bit_vector);
    assert(((b >> 3usize) & (0xffu8 >> 5usize)) == (b / 8) % 8) by (bit_vector);
    assert(((b >> 0usize) & (0xffu8 >> 5usize)) == b % 8) by (bit_vector);
}

/// The little-endian value of four bytes is their weighted sum.
pub proof fn lemma_le_u32_value(b: Seq<u8>)
    requires
        b.len() >= 4,
    ensures
        le_u32(b) == b[0] + 0x100 * b[1] + 0x1_0000 * b[2] + 0x100_0000 * b[3],
{
    let (b0, b1, b2, b3) = (b[0], b[1], b[2], b[3]);
    assert(((b0 as u32) | ((b1 as u32) << 8u32) | ((b2 as u32) << 16u32) | ((b3 as u32) << 24u32))
        == b0 as u32 + 0x100u32 * b1 as u32 + 0x1_0000u32 * b2 as u32 + 0x100_0000u32 * b3 as u32)
        by (bit_vector);
}

/// The little-endian value of two bytes is their weighted sum.
pub proof fn lemma_le_u16_value(b: Seq<u8>)
    requires
        b.len() >= 2,
    ensures
        le_u16(b) == b[0] + 0x100 * b[1],
{
    let (b0, b1) = (b[0], b[1]);
    assert(((b0 as u16) | ((b1 as u16) << 8u16)) == b0 as u16 + 0x100u16 * b1 as u16) by (bit_vector);
}

/// Clearing the low three bits of a byte subtracts its value modulo 8.
pub proof fn lemma_clear_low_bits(b: u8)
    ensures
        b & 0xf8 == b - b % 8,
{
    assert(b & 0xf8u8 == b - b % 8) by (bit_vector);
}

/// The bytes of `x` in little-endian order: byte `i` is `x / 256^i` modulo
/// 256, the least significant first.
pub proof fn lemma_le_bytes_order(x: u64)
    ensures
        le_bytes(x, 8)[0] == (x / 0x1) % 256,
        le_bytes(x, 8)[1] == (x / 0x100) % 256,
        le_bytes(x, 8)[2] == (x / 0x10000) % 256,
        le_bytes(x, 8)[3] == (x / 0x1000000) % 256,
        le_bytes(x, 8)[4] == (x / 0x100000000) % 256,
        le_bytes(x, 8)[5] == (x / 0x10000000000) % 256,
        le_bytes(x, 8)[6] == (x / 0x1000000000000) % 256,
        le_bytes(x, 8)[7] == (x / 0x100000000000000) % 256,
{
    assert(((x >> 0u64) & 0xffu64) == (x / 0x1u64) % 256
        && ((x >> 8u64) & 0xffu64) == (x / 0x100u64) % 256
        && ((x >> 16u64) & 0xffu64) == (x / 0x10000u64) % 256
        && ((x >> 24u64) & 0xffu64) == (x / 0x1000000u64) % 256
        && ((x >> 32u64) & 0xffu64) == (x / 0x100000000u64) % 256
        && ((x >> 40u64) & 0xffu64) == (x / 0x10000000000u64) % 256
        && ((x >> 48u64) & 0xffu64) == (x / 0x1000000000000u64) % 256
        && ((x >> 56u64) & 0xffu64) == (x / 0x100000000000000u64) % 256) by (bit_vector);
}

} // verus!

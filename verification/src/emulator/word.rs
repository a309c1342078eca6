//! Bytes, words and two's-complement arithmetic.
//!
//! Contracts throughout the crate speak of numbers as mathematical integers.
//! The functions here tie the shifts, masks and casts of the executable code
//! to that arithmetic.

use vstd::prelude::*;

verus! {

/// The value of `i` modulo 2^32.
pub open spec fn wrap32(i: int) -> u32 {
    (i % 0x1_0000_0000) as u32
}

/// The value of `i` modulo 2^64.
pub open spec fn wrap64(i: int) -> u64 {
    (i % 0x1_0000_0000_0000_0000) as u64
}

/// The low 32 bits of `w`.
pub open spec fn low_word(w: u64) -> u32 {
    wrap32(w as int)
}

/// The byte `b` as a word.
pub open spec fn zero_extended(b: u8) -> u32 {
    b as u32
}

/// The two's-complement encoding in 32 bits of the signed byte `v`.
pub open spec fn sign_extended(v: i8) -> u32 {
    wrap32(v as int)
}

/// The byte `b` read as a two's-complement number.
pub open spec fn signed8(b: u8) -> i8 {
    if b < 0x80 {
        b as i8
    } else {
        (b - 0x100) as i8
    }
}

/// The word `w` read as a two's-complement number.
pub open spec fn signed32(w: u32) -> i32 {
    if w < 0x8000_0000 {
        w as i32
    } else {
        (w - 0x1_0000_0000) as i32
    }
}

/// The word whose bytes, least significant first, are `b0`, `b1`, `b2`, `b3`.
pub open spec fn le32(b0: u8, b1: u8, b2: u8, b3: u8) -> u32 {
    (b0 + b1 * 0x100 + b2 * 0x1_0000 + b3 * 0x100_0000) as u32
}

/// Byte number `i` of `w`, counted from the least significant byte.
pub open spec fn byte_of(w: u32, i: int) -> u8 {
    if i == 0 {
        (w % 0x100) as u8
    } else if i == 1 {
        (w / 0x100 % 0x100) as u8
    } else if i == 2 {
        (w / 0x1_0000 % 0x100) as u8
    } else {
        (w / 0x100_0000 % 0x100) as u8
    }
}

/// Whether bit 31, the sign bit, of `w` is set.
pub open spec fn sign_bit(w: u32) -> bool {
    w >= 0x8000_0000
}

/// Assembles a little-endian word.
pub(crate) fn word_from_bytes(b0: u8, b1: u8, b2: u8, b3: u8) -> (w: u32)
    ensures
        w == le32(b0, b1, b2, b3),
{
    assert(((b0 as u32) | ((b1 as u32) << 8) | ((b2 as u32) << 16) | ((b3 as u32) << 24)) == b0
        + b1 * 0x100 + b2 * 0x1_0000 + b3 * 0x100_0000) by (bit_vector);
    (b0 as u32) | ((b1 as u32) << 8) | ((b2 as u32) << 16) | ((b3 as u32) << 24)
}

/// Extracts byte number `i` of `w`.
pub(crate) fn byte_at(w: u32, i: u32) -> (b: u8)
    requires
        i < 4,
    ensures
        b == byte_of(w, i as int),
{
    assert((w & 0xff) == w % 0x100) by (bit_vector);
    assert(((w >> 8) & 0xff) == w / 0x100 % 0x100) by (bit_vector);
    assert(((w >> 16) & 0xff) == w / 0x1_0000 % 0x100) by (bit_vector);
    assert(((w >> 24) & 0xff) == w / 0x100_0000 % 0x100) by (bit_vector);
    if i == 0 {
        (w & 0xff) as u8
    } else if i == 1 {
        ((w >> 8) & 0xff) as u8
    } else if i == 2 {
        ((w >> 16) & 0xff) as u8
    } else {
        ((w >> 24) & 0xff) as u8
    }
}

/// Reads a byte as a signed number.
pub(crate) fn to_signed8(b: u8) -> (v: i8)
    ensures
        v == signed8(b),
{
    assert(b as i8 == (if b < 0x80 { b as int } else { b - 0x100 })) by (bit_vector);
    b as i8
}

/// Reads a word as a signed number.
pub(crate) fn to_signed32(w: u32) -> (v: i32)
    ensures
        v == signed32(w),
{
    assert(w as i32 == (if w < 0x8000_0000 { w as int } else { w - 0x1_0000_0000 }))
        by (bit_vector);
    w as i32
}

/// The two's-complement encoding of `v` in 32 bits.
pub(crate) fn to_unsigned32(v: i32) -> (w: u32)
    ensures
        w == wrap32(v as int),
{
    assert(v as u32 == (if v >= 0 { v as int } else { v + 0x1_0000_0000 })) by (bit_vector);
    v as u32
}

/// The low 32 bits of `w`.
pub(crate) fn low_half(w: u64) -> (low: u32)
    ensures
        low == low_word(w),
{
    assert((w & 0xffff_ffff) == w % 0x1_0000_0000 && (w & 0xffff_ffff) <= 0xffff_ffff)
        by (bit_vector);
    (w & 0xffff_ffff) as u32
}

/// The sum of `a` and `b` modulo 2^32.
pub(crate) fn sum32(a: u32, b: u32) -> (sum: u32)
    ensures
        sum == wrap32(a + b),
{
    a.wrapping_add(b)
}

/// The sum of `a` and the signed `b` modulo 2^32.
pub(crate) fn offset32(a: u32, b: i32) -> (sum: u32)
    ensures
        sum == wrap32(a + b),
{
    a.wrapping_add_signed(b)
}

/// The difference `a - b` modulo 2^64.
pub(crate) fn difference64(a: u64, b: u64) -> (difference: u64)
    ensures
        difference == wrap64(a - b),
{
    a.wrapping_sub(b)
}

/// The low word of a difference of two words computed in 64 bits is their
/// difference modulo 2^32.
pub proof fn lemma_low_word_of_difference(a: u32, b: u32)
    ensures
        low_word(wrap64(a - b)) == wrap32(a - b),
{
}

/// A word is the little-endian value of its own four bytes.
pub proof fn lemma_word_of_bytes(w: u32)
    ensures
        le32(byte_of(w, 0), byte_of(w, 1), byte_of(w, 2), byte_of(w, 3)) == w,
{
}

} // verus!

//! Little-endian byte codecs for the scalar widths.
//!
//! Every scalar kind is encoded least-significant byte first; signed kinds
//! go through their two's-complement unsigned bit pattern.  Each width has
//! an encoding spec, a decoding spec, exec routines, and a proof that
//! decoding inverts encoding.

use vstd::arithmetic::div_mod::{
    lemma_div_denominator, lemma_div_is_ordered, lemma_fundamental_div_mod,
};
use vstd::prelude::*;

verus! {

/// The two little-endian bytes of `x`.
pub open spec fn spec_u16_le(x: u16) -> Seq<u8> {
    seq![(x % 256) as u8, (x / 256) as u8]
}

/// The 16-bit value read from two little-endian bytes.
pub open spec fn spec_u16_from(b: Seq<u8>) -> u16 {
    (b[0] + b[1] * 256) as u16
}

/// The four little-endian bytes of `x`.
pub open spec fn spec_u32_le(x: u32) -> Seq<u8> {
    seq![
        (x % 256) as u8,
        ((x / 256) % 256) as u8,
        ((x / 0x10000) % 256) as u8,
        (x / 0x1000000) as u8,
    ]
}

/// The 32-bit value read from four little-endian bytes.
pub open spec fn spec_u32_from(b: Seq<u8>) -> u32 {
    (b[0] + b[1] * 256 + b[2] * 0x10000 + b[3] * 0x1000000) as u32
}

/// The two's-complement 8-bit pattern of `x`.
pub open spec fn spec_i8_bits(x: i8) -> u8 {
    if x >= 0 {
        x as u8
    } else {
        (x + 256) as u8
    }
}

/// The signed value of an 8-bit two's-complement pattern.
pub open spec fn spec_i8_from(u: u8) -> i8 {
    if u < 128 {
        u as i8
    } else {
        (u - 256) as i8
    }
}

/// The two's-complement 16-bit pattern of `x`.
pub open spec fn spec_i16_bits(x: i16) -> u16 {
    if x >= 0 {
        x as u16
    } else {
        (x + 0x10000) as u16
    }
}

/// The signed value of a 16-bit two's-complement pattern.
pub open spec fn spec_i16_from(u: u16) -> i16 {
    if u < 0x8000 {
        u as i16
    } else {
        (u - 0x10000) as i16
    }
}

/// The two's-complement 32-bit pattern of `x`.
pub open spec fn spec_i32_bits(x: i32) -> u32 {
    if x >= 0 {
        x as u32
    } else {
        (x + 0x100000000) as u32
    }
}

/// The signed value of a 32-bit two's-complement pattern.
pub open spec fn spec_i32_from(u: u32) -> i32 {
    if u < 0x80000000 {
        u as i32
    } else {
        (u - 0x100000000) as i32
    }
}

/// Decoding two little-endian bytes inverts encoding.
pub proof fn lemma_u16_le_round_trip(x: u16)
    ensures
        spec_u16_le(x).len() == 2,
        spec_u16_from(spec_u16_le(x)) == x,
{
    lemma_fundamental_div_mod(x as int, 256);
}

/// Decoding four little-endian bytes inverts encoding.
pub proof fn lemma_u32_le_round_trip(x: u32)
    ensures
        spec_u32_le(x).len() == 4,
        spec_u32_from(spec_u32_le(x)) == x,
{
    lemma_fundamental_div_mod(x as int, 256);
    lemma_fundamental_div_mod(x as int / 256, 256);
    lemma_div_denominator(x as int, 256, 256);
    lemma_fundamental_div_mod(x as int / 0x10000, 256);
    lemma_div_denominator(x as int, 0x10000, 256);
    lemma_div_is_ordered(x as int, 0xFFFFFFFF, 0x1000000);
}

/// Decoding an 8-bit two's-complement pattern inverts encoding.
pub proof fn lemma_i8_bits_round_trip(x: i8)
    ensures
        spec_i8_from(spec_i8_bits(x)) == x,
{
}

/// Decoding a 16-bit two's-complement pattern inverts encoding.
pub proof fn lemma_i16_bits_round_trip(x: i16)
    ensures
        spec_i16_from(spec_i16_bits(x)) == x,
{
}

/// Decoding a 32-bit two's-complement pattern inverts encoding.
pub proof fn lemma_i32_bits_round_trip(x: i32)
    ensures
        spec_i32_from(spec_i32_bits(x)) == x,
{
}

/// Appends the two little-endian bytes of `x`.
pub fn u16_le_append(x: u16, out: &mut Vec<u8>)
    ensures
        final(out)@ == old(out)@ + spec_u16_le(x),
{
    out.push((x % 256) as u8);
    out.push((x / 256) as u8);
    proof {
        assert(out@ =~= old(out)@ + spec_u16_le(x));
    }
}

/// Appends the four little-endian bytes of `x`.
pub fn u32_le_append(x: u32, out: &mut Vec<u8>)
    ensures
        final(out)@ == old(out)@ + spec_u32_le(x),
{
    out.push((x % 256) as u8);
    out.push(((x / 256) % 256) as u8);
    out.push(((x / 0x10000) % 256) as u8);
    proof {
        lemma_div_is_ordered(x as int, 0xFFFFFFFF, 0x1000000);
    }
    out.push((x / 0x1000000) as u8);
    proof {
        assert(out@ =~= old(out)@ + spec_u32_le(x));
    }
}

/// Reads a 16-bit value from two little-endian bytes at offset `i`.
pub fn u16_le_read(bytes: &[u8], i: usize) -> (r: u16)
    requires
        i + 2 <= bytes@.len(),
    ensures
        r == spec_u16_from(bytes@.subrange(i as int, i as int + 2)),
{
    let b0 = bytes[i];
    let b1 = bytes[i + 1];
    proof {
        assert(bytes@.subrange(i as int, i as int + 2)[0] == b0);
        assert(bytes@.subrange(i as int, i as int + 2)[1] == b1);
    }
    b0 as u16 + (b1 as u16) * 256
}

/// Reads a 32-bit value from four little-endian bytes at offset `i`.
pub fn u32_le_read(bytes: &[u8], i: usize) -> (r: u32)
    requires
        i + 4 <= bytes@.len(),
    ensures
        r == spec_u32_from(bytes@.subrange(i as int, i as int + 4)),
{
    let b0 = bytes[i];
    let b1 = bytes[i + 1];
    let b2 = bytes[i + 2];
    let b3 = bytes[i + 3];
    proof {
        assert(bytes@.subrange(i as int, i as int + 4)[0] == b0);
        assert(bytes@.subrange(i as int, i as int + 4)[1] == b1);
        assert(bytes@.subrange(i as int, i as int + 4)[2] == b2);
        assert(bytes@.subrange(i as int, i as int + 4)[3] == b3);
    }
    b0 as u32 + (b1 as u32) * 256 + (b2 as u32) * 0x10000 + (b3 as u32) * 0x1000000
}

/// The two's-complement 8-bit pattern of `x`.
pub fn i8_bits(x: i8) -> (r: u8)
    ensures
        r == spec_i8_bits(x),
{
    if x >= 0 {
        x as u8
    } else {
        ((x as i16) + 256) as u8
    }
}

/// The signed value of an 8-bit two's-complement pattern.
pub fn i8_unbits(u: u8) -> (r: i8)
    ensures
        r == spec_i8_from(u),
{
    if u < 128 {
        u as i8
    } else {
        ((u as i16) - 256) as i8
    }
}

/// The two's-complement 16-bit pattern of `x`.
pub fn i16_bits(x: i16) -> (r: u16)
    ensures
        r == spec_i16_bits(x),
{
    if x >= 0 {
        x as u16
    } else {
        ((x as i32) + 0x10000) as u16
    }
}

/// The signed value of a 16-bit two's-complement pattern.
pub fn i16_unbits(u: u16) -> (r: i16)
    ensures
        r == spec_i16_from(u),
{
    if u < 0x8000 {
        u as i16
    } else {
        ((u as i32) - 0x10000) as i16
    }
}

/// The two's-complement 32-bit pattern of `x`.
pub fn i32_bits(x: i32) -> (r: u32)
    ensures
        r == spec_i32_bits(x),
{
    if x >= 0 {
        x as u32
    } else {
        ((x as i64) + 0x100000000) as u32
    }
}

/// The signed value of a 32-bit two's-complement pattern.
pub fn i32_unbits(u: u32) -> (r: i32)
    ensures
        r == spec_i32_from(u),
{
    if u < 0x80000000 {
        u as i32
    } else {
        ((u as i64) - 0x100000000) as i32
    }
}

} // verus!

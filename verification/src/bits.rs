//! Bit-level widening of narrow scalar kinds.
//!
//! Sixteen-bit floats and packed 8-bit color channels are carried through
//! this crate as bit patterns, and a uniform transfer always widens them to
//! 32-bit float bit patterns.  Both widenings are pure integer functions of
//! the input bits, written out here against their defining specifications:
//! the 16-to-32-bit float conversion is exact (every 16-bit float value is
//! representable in 32 bits), and the channel normalization produces the
//! 32-bit float nearest to `c / 255`, which never needs a tie-break because
//! 255 is odd.

use vstd::prelude::*;

verus! {

/// The normalized significand and 32-bit exponent field of a subnormal
/// 16-bit float significand `m` (`1 <= m <= 1023`): `m` is shifted left
/// until its leading bit reaches position 10, and the exponent field drops
/// from 112 by one per shift.  Returns `exponent * 0x800000 + (shifted
/// significand - 1024) * 0x2000`, the exponent and fraction fields of the
/// 32-bit pattern.
pub open spec fn spec_f16_subnormal_fields(m: int) -> int {
    if m >= 512 {
        112 * 0x800000 + (m * 2 - 1024) * 0x2000
    } else if m >= 256 {
        111 * 0x800000 + (m * 4 - 1024) * 0x2000
    } else if m >= 128 {
        110 * 0x800000 + (m * 8 - 1024) * 0x2000
    } else if m >= 64 {
        109 * 0x800000 + (m * 16 - 1024) * 0x2000
    } else if m >= 32 {
        108 * 0x800000 + (m * 32 - 1024) * 0x2000
    } else if m >= 16 {
        107 * 0x800000 + (m * 64 - 1024) * 0x2000
    } else if m >= 8 {
        106 * 0x800000 + (m * 128 - 1024) * 0x2000
    } else if m >= 4 {
        105 * 0x800000 + (m * 256 - 1024) * 0x2000
    } else if m >= 2 {
        104 * 0x800000 + (m * 512 - 1024) * 0x2000
    } else {
        103 * 0x800000int
    }
}

/// The 32-bit float bit pattern carrying the same value as the 16-bit float
/// bit pattern `h`: the sign moves to bit 31; a normal exponent is rebiased
/// from 15 to 127 (an offset of 112); a subnormal significand is
/// renormalized; infinities and NaNs map to 32-bit infinities and NaNs with
/// the significand bits kept (shifted into the wider field).
pub open spec fn spec_f16_widen(h: u16) -> int {
    let s: int = h as int / 0x8000;
    let e: int = (h as int / 0x400) % 0x20;
    let m: int = h as int % 0x400;
    if e == 0 && m == 0 {
        s * 0x80000000
    } else if e == 0 {
        s * 0x80000000 + spec_f16_subnormal_fields(m)
    } else if e == 0x1F {
        s * 0x80000000 + 255 * 0x800000 + m * 0x2000
    } else {
        s * 0x80000000 + (e + 112) * 0x800000 + m * 0x2000
    }
}

/// [`spec_f16_widen`] as a 32-bit pattern.
pub open spec fn spec_f16_bits(h: u16) -> u32 {
    spec_f16_widen(h) as u32
}

/// Widens a 16-bit float bit pattern to the 32-bit float bit pattern with
/// the same value.
pub fn f16_widen_bits(h: u16) -> (r: u32)
    ensures
        r == spec_f16_widen(h),
        r == spec_f16_bits(h),
{
    let s: u32 = (h as u32) / 0x8000;
    let e: u32 = ((h as u32) / 0x400) % 0x20;
    let m: u32 = (h as u32) % 0x400;
    if e == 0 && m == 0 {
        s * 0x80000000
    } else if e == 0 {
        let fields: u32 = if m >= 512 {
            112 * 0x800000 + (m * 2 - 1024) * 0x2000
        } else if m >= 256 {
            111 * 0x800000 + (m * 4 - 1024) * 0x2000
        } else if m >= 128 {
            110 * 0x800000 + (m * 8 - 1024) * 0x2000
        } else if m >= 64 {
            109 * 0x800000 + (m * 16 - 1024) * 0x2000
        } else if m >= 32 {
            108 * 0x800000 + (m * 32 - 1024) * 0x2000
        } else if m >= 16 {
            107 * 0x800000 + (m * 64 - 1024) * 0x2000
        } else if m >= 8 {
            106 * 0x800000 + (m * 128 - 1024) * 0x2000
        } else if m >= 4 {
            105 * 0x800000 + (m * 256 - 1024) * 0x2000
        } else if m >= 2 {
            104 * 0x800000 + (m * 512 - 1024) * 0x2000
        } else {
            103 * 0x800000
        };
        s * 0x80000000 + fields
    } else if e == 0x1F {
        s * 0x80000000 + 255 * 0x800000 + m * 0x2000
    } else {
        s * 0x80000000 + (e + 112) * 0x800000 + m * 0x2000
    }
}

/// The 32-bit float bit pattern nearest to `c / 255`, for a packed color
/// channel `c`.  For `c > 0` the quotient lies in `[2^-8, 1]`, so the result
/// is a normal float: the significand is the correctly rounded quotient
/// `c * 2^(31 - floor(log2 c)) / 255`, and rounding never ties because 255
/// is odd.  A rounded-up significand that reaches `2^24` carries into the
/// exponent; that happens exactly at `c == 255`, which yields the pattern
/// for `1.0`.
pub open spec fn spec_norm_channel(c: u8) -> int {
    if c == 0 {
        0
    } else {
        let n: int = if c >= 128 {
            c * 0x1000000
        } else if c >= 64 {
            c * 0x2000000
        } else if c >= 32 {
            c * 0x4000000
        } else if c >= 16 {
            c * 0x8000000
        } else if c >= 8 {
            c * 0x10000000
        } else if c >= 4 {
            c * 0x20000000
        } else if c >= 2 {
            c * 0x40000000
        } else {
            c * 0x80000000
        };
        let exp: int = if c >= 128 {
            126
        } else if c >= 64 {
            125
        } else if c >= 32 {
            124
        } else if c >= 16 {
            123
        } else if c >= 8 {
            122
        } else if c >= 4 {
            121
        } else if c >= 2 {
            120
        } else {
            119
        };
        let q: int = n / 255;
        let rem: int = n % 255;
        let m: int = if 2 * rem > 255 {
            q + 1
        } else {
            q
        };
        if m == 0x1000000 {
            (exp + 1) * 0x800000
        } else {
            exp * 0x800000 + (m - 0x800000)
        }
    }
}

/// [`spec_norm_channel`] as a 32-bit pattern.
pub open spec fn spec_norm_bits(c: u8) -> u32 {
    spec_norm_channel(c) as u32
}

/// Normalizes a packed 8-bit color channel to the 32-bit float bit pattern
/// nearest to `c / 255`.
pub fn norm_channel_bits(c: u8) -> (r: u32)
    ensures
        r == spec_norm_channel(c),
        r == spec_norm_bits(c),
{
    if c == 0 {
        0
    } else {
        let w: u32 = c as u32;
        let n: u32 = if w >= 128 {
            w * 0x1000000
        } else if w >= 64 {
            w * 0x2000000
        } else if w >= 32 {
            w * 0x4000000
        } else if w >= 16 {
            w * 0x8000000
        } else if w >= 8 {
            w * 0x10000000
        } else if w >= 4 {
            w * 0x20000000
        } else if w >= 2 {
            w * 0x40000000
        } else {
            w * 0x80000000
        };
        let exp: u32 = if w >= 128 {
            126
        } else if w >= 64 {
            125
        } else if w >= 32 {
            124
        } else if w >= 16 {
            123
        } else if w >= 8 {
            122
        } else if w >= 4 {
            121
        } else if w >= 2 {
            120
        } else {
            119
        };
        let q: u32 = n / 255;
        let rem: u32 = n % 255;
        let m: u32 = if 2 * rem > 255 {
            q + 1
        } else {
            q
        };
        proof {
            assert(n >= 0x80000000);
            vstd::arithmetic::div_mod::lemma_div_is_ordered(0x80000000, n as int, 255);
            assert(q >= 0x80000000u32 / 255);
        }
        if m == 0x1000000 {
            (exp + 1) * 0x800000
        } else {
            exp * 0x800000 + (m - 0x800000)
        }
    }
}

} // verus!

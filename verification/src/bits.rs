//! Single-precision numbers held by their IEEE-754 bit patterns.
//!
//! The scene stores every `f32` quantity (positions, radii, colours) as the
//! `u32` bit pattern of that number.  This module gives the comparison that
//! `f32 == f32` performs on such patterns and names the constants the
//! library writes.
use vstd::prelude::*;

verus! {

/// Bit pattern of `0.0`.
pub const ZERO: u32 = 0x0000_0000;
/// Bit pattern of `1.0`.
pub const ONE: u32 = 0x3f80_0000;
/// Bit pattern of `0.5`.
pub const HALF: u32 = 0x3f00_0000;
/// Bit pattern of `0.1`.
pub const F_0_1: u32 = 0x3dcc_cccd;
/// Bit pattern of `0.2`.
pub const F_0_2: u32 = 0x3e4c_cccd;
/// Bit pattern of `0.3`.
pub const F_0_3: u32 = 0x3e99_999a;
/// Bit pattern of `0.6`.
pub const F_0_6: u32 = 0x3f19_999a;
/// Bit pattern of `0.8`.
pub const F_0_8: u32 = 0x3f4c_cccd;
/// Bit pattern of `0.001`.
pub const F_0_001: u32 = 0x3a83_126f;

/// The pattern encodes a NaN: all exponent bits set and a non-zero fraction.
pub open spec fn is_nan_bits(a: u32) -> bool {
    &&& a & 0x7f80_0000 == 0x7f80_0000
    &&& a & 0x007f_ffff != 0
}

/// The pattern encodes `+0.0` or `-0.0`.
pub open spec fn is_zero_bits(a: u32) -> bool {
    a & 0x7fff_ffff == 0
}

/// IEEE-754 equality of the two encoded numbers: the two zeros are equal,
/// a NaN equals nothing, every other value equals exactly itself.
pub open spec fn float_eq_spec(a: u32, b: u32) -> bool {
    ||| is_zero_bits(a) && is_zero_bits(b)
    ||| a == b && !is_nan_bits(a)
}

/// `==` on the two encoded `f32` values.
pub fn float_eq(a: u32, b: u32) -> (r: bool)
    ensures
        r == float_eq_spec(a, b),
{
    (a & 0x7fff_ffff == 0 && b & 0x7fff_ffff == 0)
        || (a == b && !(a & 0x7f80_0000 == 0x7f80_0000 && a & 0x007f_ffff != 0))
}

/// The encoded number is greater than zero: a positive finite value or `+inf`
/// (sign bit clear, not zero, not a NaN).
pub open spec fn float_pos_spec(a: u32) -> bool {
    0 < a && a <= 0x7f80_0000
}

/// `a > 0.0` on the encoded `f32` value.
pub fn float_pos(a: u32) -> (r: bool)
    ensures
        r == float_pos_spec(a),
{
    0 < a && a <= 0x7f80_0000
}

/// `|a| > c`, for `c` the pattern of a non-negative finite number: clearing the sign
/// bit gives `|a|`, and non-negative numbers order as their patterns do; a NaN
/// compares greater than nothing.
pub open spec fn float_abs_gt_spec(a: u32, c: u32) -> bool {
    let m = a & 0x7fff_ffff;
    c < m && m <= 0x7f80_0000
}

/// `a.abs() > c` on encoded `f32` values, `c` non-negative and finite.
pub fn float_abs_gt(a: u32, c: u32) -> (r: bool)
    ensures
        r == float_abs_gt_spec(a, c),
{
    let m = a & 0x7fff_ffff;
    c < m && m <= 0x7f80_0000
}

/// Element-wise `==` on two encoded `[f32; 3]` values.
pub open spec fn float3_eq_spec(a: [u32; 3], b: [u32; 3]) -> bool {
    &&& float_eq_spec(a[0], b[0])
    &&& float_eq_spec(a[1], b[1])
    &&& float_eq_spec(a[2], b[2])
}

/// `==` on two encoded `[f32; 3]` values.
pub fn float3_eq(a: [u32; 3], b: [u32; 3]) -> (r: bool)
    ensures
        r == float3_eq_spec(a, b),
{
    float_eq(a[0], b[0]) && float_eq(a[1], b[1]) && float_eq(a[2], b[2])
}

/// Position of the highest set bit of `m` at or above position `k`, searching upward
/// from `k` and stopping at position 22 (the top of an `f32` fraction).
pub open spec fn top_bit_from(m: u32, k: u32) -> u32
    decreases 22 - k,
{
    if k >= 22 || (m >> (k + 1)) == 0 {
        k
    } else {
        top_bit_from(m, (k + 1) as u32)
    }
}

/// The `f64` bit pattern of the encoded `f32` value, the same number in the wider
/// format: the sign is kept; an infinity stays an infinity and a NaN a NaN (its fraction
/// shifted into the wider field; hardware may also set the quiet bit, which leaves it a
/// NaN); a normal number's exponent is rebiased from 127 to 1023; a subnormal number is
/// normalised, its highest fraction bit becoming the implicit one.
pub open spec fn widen_spec(a: u32) -> u64 {
    let sign = ((a >> 31) as u64) << 63;
    let e = (a >> 23) & 0xff;
    let m = a & 0x7f_ffff;
    if e == 255 {
        sign | (0x7ffu64 << 52) | ((m as u64) << 29)
    } else if e != 0 {
        sign | (((e + 896) as u64) << 52) | ((m as u64) << 29)
    } else if m == 0 {
        sign
    } else {
        let k = top_bit_from(m, 0);
        sign | (((k + 874) as u64) << 52) | (((m - (1u32 << k)) as u64) << ((52 - k) as u64))
    }
}

/// `f32 as f64` on bit patterns.
pub fn widen(a: u32) -> (r: u64)
    ensures
        r == widen_spec(a),
{
    let sign = ((a >> 31) as u64) << 63;
    let e = (a >> 23) & 0xff;
    let m = a & 0x7f_ffff;
    if e == 255 {
        sign | (0x7ffu64 << 52) | ((m as u64) << 29)
    } else if e != 0 {
        assert(e <= 255) by (bit_vector)
            requires e == (a >> 23) & 0xff;
        sign | (((e + 896) as u64) << 52) | ((m as u64) << 29)
    } else if m == 0 {
        sign
    } else {
        let mut k: u32 = 0;
        assert((m >> 0u32) == m) by (bit_vector);
        while k < 22 && (m >> (k + 1)) != 0
            invariant
                k <= 22,
                (m >> k) != 0,
                top_bit_from(m, 0) == top_bit_from(m, k),
            decreases 22 - k,
        {
            k += 1;
        }
        assert(m < 0x80_0000) by (bit_vector)
            requires m == a & 0x7f_ffff;
        assert((1u32 << k) <= m) by (bit_vector)
            requires
                (m >> k) != 0,
                k <= 22;
        sign | (((k + 874) as u64) << 52) | (((m - (1u32 << k)) as u64) << ((52 - k) as u64))
    }
}

/// The encoded `f64` value is a NaN.
pub open spec fn is_nan64(a: u64) -> bool {
    a & 0x7ff0_0000_0000_0000 == 0x7ff0_0000_0000_0000 && a & 0x000f_ffff_ffff_ffff != 0
}

/// IEEE-754 equality of two encoded `f64` values.
pub open spec fn float64_eq_spec(a: u64, b: u64) -> bool {
    ||| a & 0x7fff_ffff_ffff_ffff == 0 && b & 0x7fff_ffff_ffff_ffff == 0
    ||| a == b && !is_nan64(a)
}

/// `==` on two encoded `f64` values.
pub fn float64_eq(a: u64, b: u64) -> (r: bool)
    ensures
        r == float64_eq_spec(a, b),
{
    (a & 0x7fff_ffff_ffff_ffff == 0 && b & 0x7fff_ffff_ffff_ffff == 0)
        || (a == b && !(a & 0x7ff0_0000_0000_0000 == 0x7ff0_0000_0000_0000 && a & 0x000f_ffff_ffff_ffff != 0))
}

} // verus!

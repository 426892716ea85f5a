//! Emulation of narrow formats on the bit pattern of a binary64 value.
//!
//! A binary64 value is a sign bit, an 11-bit biased exponent and a 52-bit
//! mantissa. The functions here take such a bit pattern and return the bit
//! pattern of the value that the narrower format would keep.
use vstd::prelude::*;

use crate::precision::Precision;

verus! {

/// The sign bit of a binary64 value.
pub const SIGN_MASK: u64 = 0x8000_0000_0000_0000;

/// Every bit but the sign: zero exactly for positive and negative zero.
pub const MAGNITUDE_MASK: u64 = 0x7FFF_FFFF_FFFF_FFFF;

/// The bit pattern of positive infinity.
pub const INFINITY_BITS: u64 = 0x7FF0_0000_0000_0000;

/// The mantissa bits of a binary64 value.
pub const MANTISSA_MASK: u64 = 0x000F_FFFF_FFFF_FFFF;

/// The biased exponent field (11 bits).
pub open spec fn exponent_field(b: u64) -> u64 {
    (b >> 52u64) & 0x7FFu64
}

/// The mantissa field (52 bits).
pub open spec fn mantissa_field(b: u64) -> u64 {
    b & MANTISSA_MASK
}

/// The magnitude bits: the value with its sign cleared.
pub open spec fn magnitude(b: u64) -> u64 {
    b & MAGNITUDE_MASK
}

/// The sign bit alone.
pub open spec fn sign_of(b: u64) -> u64 {
    b & SIGN_MASK
}

/// Half precision (5-bit exponent, 10-bit mantissa), without subnormals:
/// zero becomes positive zero; infinities and NaNs pass through; a value
/// whose unbiased exponent is below -14 flushes to a zero of its sign, one
/// above 15 overflows to an infinity of its sign; any other value keeps its
/// sign and exponent and the top 10 bits of its mantissa.
pub open spec fn spec_f16_bits(b: u64) -> u64 {
    if magnitude(b) == 0 {
        0
    } else if exponent_field(b) == 0x7FF {
        b
    } else if exponent_field(b) < 1009 {
        sign_of(b)
    } else if exponent_field(b) > 1038 {
        sign_of(b) | INFINITY_BITS
    } else {
        sign_of(b) | (exponent_field(b) << 52u64) | ((mantissa_field(b) >> 42u64) << 42u64)
    }
}

/// Bfloat16 (8-bit exponent, 7-bit mantissa) as the binary64 exponent range
/// sees it: zero becomes positive zero; infinities and NaNs pass through;
/// any other value keeps its sign, its exponent and the top 7 bits of its
/// mantissa.
pub open spec fn spec_bf16_bits(b: u64) -> u64 {
    if magnitude(b) == 0 {
        0
    } else if exponent_field(b) == 0x7FF {
        b
    } else {
        (b >> 45u64) << 45u64
    }
}

/// Truncates the bit pattern of a binary64 value to half precision.
pub fn f16_bits(bits: u64) -> (r: u64)
    ensures
        r == spec_f16_bits(bits),
{
    if bits & MAGNITUDE_MASK == 0 {
        return 0;
    }
    let exponent: u64 = (bits >> 52) & 0x7FF;
    assert(((bits >> 52u64) & 0x7FFu64) <= 0x7FFu64) by (bit_vector);
    if exponent == 0x7FF {
        return bits;
    }
    let sign: u64 = bits & SIGN_MASK;
    let mantissa: u64 = bits & MANTISSA_MASK;
    // Re-bias from binary64 (bias 1023) to half precision (bias 15).
    let new_exp: i32 = exponent as i32 - 1023 + 15;
    if new_exp < 1 {
        sign
    } else if new_exp > 30 {
        sign | INFINITY_BITS
    } else {
        let new_mantissa: u64 = (mantissa >> 42) << 42;
        let restored: u64 = new_exp as u64 + 1023 - 15;
        assert(restored == exponent);
        assert((exponent & 0x7FFu64) == exponent) by (bit_vector)
            requires
                exponent <= 0x7FFu64,
        ;
        sign | ((restored & 0x7FF) << 52) | new_mantissa
    }
}

/// Truncates the bit pattern of a binary64 value to bfloat16.
pub fn bf16_bits(bits: u64) -> (r: u64)
    ensures
        r == spec_bf16_bits(bits),
{
    if bits & MAGNITUDE_MASK == 0 {
        return 0;
    }
    if (bits >> 52) & 0x7FF == 0x7FF {
        return bits;
    }
    (bits >> 45) << 45
}

/// The range of values an integer precision can hold, if it saturates.
pub open spec fn saturation_range(p: Precision) -> Option<(int, int)> {
    match p {
        Precision::Int8 => Some((-128, 127)),
        Precision::Int16 => Some((-32768, 32767)),
        _ => None,
    }
}

/// An integer limited to `[lo, hi]`.
pub open spec fn clamped(v: int, lo: int, hi: int) -> int {
    if v < lo {
        lo
    } else if v > hi {
        hi
    } else {
        v
    }
}

/// The value a precision holds of an already rounded integer: limited to
/// the range of an 8- or 16-bit integer precision, unchanged otherwise.
pub open spec fn spec_saturate(p: Precision, v: int) -> int {
    match saturation_range(p) {
        Some((lo, hi)) => clamped(v, lo, hi),
        None => v,
    }
}

impl Precision {
    /// Saturates an already rounded value to the range of an 8- or 16-bit
    /// integer precision; other precisions leave it as it is.
    pub fn saturate(&self, v: i32) -> (r: i32)
        ensures
            r == spec_saturate(*self, v as int),
    {
        match self {
            Precision::Int8 => clamp_i32(v, -128, 127),
            Precision::Int16 => clamp_i32(v, -32768, 32767),
            _ => v,
        }
    }
}

/// Limits `v` to `[lo, hi]`.
pub fn clamp_i32(v: i32, lo: i32, hi: i32) -> (r: i32)
    requires
        lo <= hi,
    ensures
        r == clamped(v as int, lo as int, hi as int),
{
    if v < lo {
        lo
    } else if v > hi {
        hi
    } else {
        v
    }
}

/// Positive zero has no sign, no magnitude and no mantissa bits above the
/// 45th.
proof fn lemma_zero_bits()
    ensures
        sign_of(0) == 0,
        magnitude(0) == 0,
        (0u64 >> 45u64) << 45u64 == 0,
{
    assert(((0u64 & 0x8000_0000_0000_0000u64) == 0u64) && ((0u64 & 0x7FFF_FFFF_FFFF_FFFFu64)
        == 0u64) && ((0u64 >> 45u64) << 45u64) == 0u64) by (bit_vector);
}

/// The low 42 mantissa bits, which half precision cannot hold.
pub const F16_DROPPED_BITS: u64 = 0x3FF_FFFF_FFFF;

/// The low 45 mantissa bits, which bfloat16 cannot hold.
pub const BF16_DROPPED_BITS: u64 = 0x1FFF_FFFF_FFFF;

/// A value that half precision holds exactly (a normal half-precision
/// number: unbiased exponent in [-14, 15], nothing in the dropped mantissa
/// bits) is left as it is.
pub proof fn lemma_f16_keeps_representable(b: u64)
    requires
        1009 <= exponent_field(b) <= 1038,
        b & F16_DROPPED_BITS == 0,
    ensures
        spec_f16_bits(b) == b,
{
    let e = exponent_field(b);
    assert({
        &&& (b & 0x7FFF_FFFF_FFFF_FFFFu64) != 0u64
        &&& ((b & 0x8000_0000_0000_0000u64) | (e << 52u64) | (((b & 0x000F_FFFF_FFFF_FFFFu64)
            >> 42u64) << 42u64)) == b
    }) by (bit_vector)
        requires
            e == ((b >> 52u64) & 0x7FFu64),
            1009u64 <= e,
            (b & 0x3FF_FFFF_FFFFu64) == 0u64,
    ;
}

/// What half precision makes of a value that is not NaN: a value too small
/// for it (unbiased exponent below -14) becomes a zero, one too large
/// (above 15) an infinity of its sign, and any other result is a number
/// half precision holds exactly, of the value's sign.
pub proof fn lemma_f16_results(b: u64)
    requires
        !is_nan_bits(b),
    ensures
        exponent_field(b) < 1009 ==> magnitude(spec_f16_bits(b)) == 0,
        1038 < exponent_field(b) ==> magnitude(spec_f16_bits(b)) == INFINITY_BITS && sign_of(
            spec_f16_bits(b),
        ) == sign_of(b),
        1009 <= exponent_field(b) <= 1038 ==> {
            &&& 1009 <= exponent_field(spec_f16_bits(b)) <= 1038
            &&& spec_f16_bits(b) & F16_DROPPED_BITS == 0
            &&& sign_of(spec_f16_bits(b)) == sign_of(b)
        },
{
    lemma_zero_bits();
    let e = exponent_field(b);
    if magnitude(b) == 0 {
        assert(((b >> 52u64) & 0x7FFu64) == 0u64) by (bit_vector)
            requires
                (b & 0x7FFF_FFFF_FFFF_FFFFu64) == 0u64,
        ;
    } else if e == 0x7FF {
        assert((b & 0x7FFF_FFFF_FFFF_FFFFu64) == 0x7FF0_0000_0000_0000u64) by (bit_vector)
            requires
                ((b >> 52u64) & 0x7FFu64) == 0x7FFu64,
                (b & 0x000F_FFFF_FFFF_FFFFu64) == 0u64,
        ;
    } else if e < 1009 {
        assert(((b & 0x8000_0000_0000_0000u64) & 0x7FFF_FFFF_FFFF_FFFFu64) == 0u64) by (bit_vector);
    } else if e > 1038 {
        assert(((((b & 0x8000_0000_0000_0000u64) | 0x7FF0_0000_0000_0000u64)
            & 0x7FFF_FFFF_FFFF_FFFFu64) == 0x7FF0_0000_0000_0000u64) && ((((b
            & 0x8000_0000_0000_0000u64) | 0x7FF0_0000_0000_0000u64) & 0x8000_0000_0000_0000u64)
            == (b & 0x8000_0000_0000_0000u64))) by (bit_vector);
    } else {
        assert({
            let r2 = (b & 0x8000_0000_0000_0000u64) | (e << 52u64) | (((b
                & 0x000F_FFFF_FFFF_FFFFu64) >> 42u64) << 42u64);
            &&& ((r2 >> 52u64) & 0x7FFu64) == e
            &&& (r2 & 0x3FF_FFFF_FFFFu64) == 0u64
            &&& (r2 & 0x8000_0000_0000_0000u64) == (b & 0x8000_0000_0000_0000u64)
        }) by (bit_vector)
            requires
                e == ((b >> 52u64) & 0x7FFu64),
                e <= 1038u64,
        ;
    }
}

/// A value that bfloat16 holds exactly (nothing in the dropped mantissa
/// bits) is left as it is; only negative zero becomes positive zero.
pub proof fn lemma_bf16_keeps_representable(b: u64)
    requires
        b & BF16_DROPPED_BITS == 0,
        b != SIGN_MASK,
    ensures
        spec_bf16_bits(b) == b,
{
    assert((b & 0x1FFF_FFFF_FFFFu64) == 0u64 ==> ((b >> 45u64) << 45u64) == b) by (bit_vector);
    assert(((b & 0x7FFF_FFFF_FFFF_FFFFu64) == 0u64) ==> (b == 0u64 || b
        == 0x8000_0000_0000_0000u64)) by (bit_vector);
}

/// What bfloat16 makes of a value that is not NaN keeps its sign and
/// exponent and holds nothing in the dropped mantissa bits.
pub proof fn lemma_bf16_results(b: u64)
    requires
        !is_nan_bits(b),
    ensures
        spec_bf16_bits(b) & BF16_DROPPED_BITS == 0,
        magnitude(b) != 0 ==> exponent_field(spec_bf16_bits(b)) == exponent_field(b) && sign_of(
            spec_bf16_bits(b),
        ) == sign_of(b),
{
    lemma_zero_bits();
    assert((0u64 & 0x1FFF_FFFF_FFFFu64) == 0u64) by (bit_vector);
    if magnitude(b) != 0 && exponent_field(b) == 0x7FF {
        assert((b & 0x1FFF_FFFF_FFFFu64) == 0u64) by (bit_vector)
            requires
                (b & 0x000F_FFFF_FFFF_FFFFu64) == 0u64,
        ;
    } else {
        assert({
            let r2 = (b >> 45u64) << 45u64;
            &&& (r2 & 0x1FFF_FFFF_FFFFu64) == 0u64
            &&& ((r2 >> 52u64) & 0x7FFu64) == ((b >> 52u64) & 0x7FFu64)
            &&& (r2 & 0x8000_0000_0000_0000u64) == (b & 0x8000_0000_0000_0000u64)
        }) by (bit_vector);
    }
}

/// What saturation does: an 8-bit integer precision holds exactly the
/// integers in [-128, 127], a 16-bit one those in [-32768, 32767]; a value
/// inside the range is kept, one below goes to the bottom of the range, one
/// above to the top. Other precisions keep every value.
pub proof fn lemma_saturate_law(p: Precision, v: int)
    ensures
        p == Precision::Int8 ==> -128 <= spec_saturate(p, v) <= 127,
        p == Precision::Int16 ==> -32768 <= spec_saturate(p, v) <= 32767,
        p == Precision::Int8 && -128 <= v <= 127 ==> spec_saturate(p, v) == v,
        p == Precision::Int16 && -32768 <= v <= 32767 ==> spec_saturate(p, v) == v,
        p == Precision::Int8 && v < -128 ==> spec_saturate(p, v) == -128,
        p == Precision::Int8 && v > 127 ==> spec_saturate(p, v) == 127,
        p == Precision::Int16 && v < -32768 ==> spec_saturate(p, v) == -32768,
        p == Precision::Int16 && v > 32767 ==> spec_saturate(p, v) == 32767,
        p != Precision::Int8 && p != Precision::Int16 ==> spec_saturate(p, v) == v,
{
}

/// Saturating a second time changes nothing.
pub proof fn lemma_saturate_idempotent(p: Precision, v: int)
    ensures
        spec_saturate(p, spec_saturate(p, v)) == spec_saturate(p, v),
{
}

/// Saturation keeps the order of values: a smaller value never saturates
/// to a larger one.
pub proof fn lemma_saturate_monotone(p: Precision, u: int, v: int)
    requires
        u <= v,
    ensures
        spec_saturate(p, u) <= spec_saturate(p, v),
{
}

/// The bit pattern is a NaN: all exponent bits set, mantissa not zero.
pub open spec fn is_nan_bits(b: u64) -> bool {
    exponent_field(b) == 0x7FF && mantissa_field(b) != 0
}

/// Where the value of a non-NaN bit pattern stands on the number line: its
/// magnitude bits, negated when the sign bit is set. IEEE 754 lays out the
/// magnitudes of non-NaN binary64 values so that their bit patterns, read
/// as integers, order them as numbers (infinity last); so this key orders
/// non-NaN values as the numbers they denote, both zeros at 0.
pub open spec fn order_key(b: u64) -> int {
    if sign_of(b) == 0 {
        magnitude(b) as int
    } else {
        -(magnitude(b) as int)
    }
}

/// The magnitude bits that half-precision truncation gives a non-NaN
/// magnitude: zero below the half-precision normal range, the top 10
/// mantissa bits within it, infinity above it.
pub open spec fn f16_magnitude(m: u64) -> u64 {
    if m < 0x3F10_0000_0000_0000 {
        0
    } else if m < 0x40F0_0000_0000_0000 {
        (m >> 42u64) << 42u64
    } else {
        INFINITY_BITS
    }
}

/// The magnitude bits that bfloat16 truncation gives a non-NaN magnitude:
/// the top 7 mantissa bits.
pub open spec fn bf16_magnitude(m: u64) -> u64 {
    (m >> 45u64) << 45u64
}

/// The value half-precision truncation gives a non-NaN value is the
/// truncated magnitude with the value's sign.
pub proof fn lemma_f16_key(b: u64)
    requires
        !is_nan_bits(b),
    ensures
        order_key(spec_f16_bits(b)) == if sign_of(b) == 0 {
            f16_magnitude(magnitude(b)) as int
        } else {
            -(f16_magnitude(magnitude(b)) as int)
        },
{
    let m = magnitude(b);
    let e = exponent_field(b);
    let r = spec_f16_bits(b);
    lemma_zero_bits();
    assert(e == (m >> 52u64)) by (bit_vector)
        requires
            e == ((b >> 52u64) & 0x7FFu64),
            m == (b & 0x7FFF_FFFF_FFFF_FFFFu64),
    ;
    assert((m >> 52u64) < 1009u64 <==> m < 0x3F10_0000_0000_0000u64) by (bit_vector);
    assert((m >> 52u64) <= 1038u64 <==> m < 0x40F0_0000_0000_0000u64) by (bit_vector);
    if m == 0 {
    } else if e == 0x7FF {
        assert(m == 0x7FF0_0000_0000_0000u64) by (bit_vector)
            requires
                ((b >> 52u64) & 0x7FFu64) == 0x7FFu64,
                (b & 0x000F_FFFF_FFFF_FFFFu64) == 0u64,
                m == (b & 0x7FFF_FFFF_FFFF_FFFFu64),
        ;
    } else if e < 1009 {
        assert(((b & 0x8000_0000_0000_0000u64) & 0x7FFF_FFFF_FFFF_FFFFu64) == 0u64) by (bit_vector);
    } else if e > 1038 {
        assert(((((b & 0x8000_0000_0000_0000u64) | 0x7FF0_0000_0000_0000u64)
            & 0x7FFF_FFFF_FFFF_FFFFu64) == 0x7FF0_0000_0000_0000u64) && ((((b
            & 0x8000_0000_0000_0000u64) | 0x7FF0_0000_0000_0000u64) & 0x8000_0000_0000_0000u64)
            == (b & 0x8000_0000_0000_0000u64))) by (bit_vector);
    } else {
        assert({
            let r2 = (b & 0x8000_0000_0000_0000u64) | (e << 52u64) | (((b
                & 0x000F_FFFF_FFFF_FFFFu64) >> 42u64) << 42u64);
            &&& (r2 & 0x7FFF_FFFF_FFFF_FFFFu64) == (m >> 42u64) << 42u64
            &&& (r2 & 0x8000_0000_0000_0000u64) == (b & 0x8000_0000_0000_0000u64)
        }) by (bit_vector)
            requires
                e == ((b >> 52u64) & 0x7FFu64),
                m == (b & 0x7FFF_FFFF_FFFF_FFFFu64),
        ;
    }
}

/// The value bfloat16 truncation gives a non-NaN value is the truncated
/// magnitude with the value's sign.
pub proof fn lemma_bf16_key(b: u64)
    requires
        !is_nan_bits(b),
    ensures
        order_key(spec_bf16_bits(b)) == if sign_of(b) == 0 {
            bf16_magnitude(magnitude(b)) as int
        } else {
            -(bf16_magnitude(magnitude(b)) as int)
        },
{
    let m = magnitude(b);
    lemma_zero_bits();
    if m == 0 {
    } else if exponent_field(b) == 0x7FF {
        assert(((m >> 45u64) << 45u64) == m) by (bit_vector)
            requires
                ((b >> 52u64) & 0x7FFu64) == 0x7FFu64,
                (b & 0x000F_FFFF_FFFF_FFFFu64) == 0u64,
                m == (b & 0x7FFF_FFFF_FFFF_FFFFu64),
        ;
    } else {
        assert({
            let r2 = (b >> 45u64) << 45u64;
            &&& (r2 & 0x7FFF_FFFF_FFFF_FFFFu64) == (m >> 45u64) << 45u64
            &&& (r2 & 0x8000_0000_0000_0000u64) == (b & 0x8000_0000_0000_0000u64)
        }) by (bit_vector)
            requires
                m == (b & 0x7FFF_FFFF_FFFF_FFFFu64),
        ;
    }
}

/// Truncating the magnitude to half precision keeps its order.
pub proof fn lemma_f16_magnitude_monotone(m1: u64, m2: u64)
    requires
        m1 <= m2,
    ensures
        f16_magnitude(m1) <= f16_magnitude(m2),
        f16_magnitude(0) == 0,
{
    assert(m1 <= m2 ==> ((m1 >> 42u64) << 42u64) <= ((m2 >> 42u64) << 42u64)) by (bit_vector);
    assert(m1 < 0x40F0_0000_0000_0000u64 ==> ((m1 >> 42u64) << 42u64)
        <= 0x7FF0_0000_0000_0000u64) by (bit_vector);
}

/// Truncating the magnitude to bfloat16 keeps its order.
pub proof fn lemma_bf16_magnitude_monotone(m1: u64, m2: u64)
    requires
        m1 <= m2,
    ensures
        bf16_magnitude(m1) <= bf16_magnitude(m2),
        bf16_magnitude(0) == 0,
{
    assert(m1 <= m2 ==> ((m1 >> 45u64) << 45u64) <= ((m2 >> 45u64) << 45u64)) by (bit_vector);
    assert(((0u64 >> 45u64) << 45u64) == 0u64) by (bit_vector);
}

/// Half-precision truncation keeps the order of non-NaN values: a value
/// never truncates to something above what a larger value truncates to.
pub proof fn lemma_f16_monotone(a: u64, b: u64)
    requires
        !is_nan_bits(a),
        !is_nan_bits(b),
        order_key(a) <= order_key(b),
    ensures
        order_key(spec_f16_bits(a)) <= order_key(spec_f16_bits(b)),
{
    lemma_f16_key(a);
    lemma_f16_key(b);
    if magnitude(a) <= magnitude(b) {
        lemma_f16_magnitude_monotone(magnitude(a), magnitude(b));
    } else {
        lemma_f16_magnitude_monotone(magnitude(b), magnitude(a));
    }
    lemma_f16_magnitude_monotone(0, magnitude(a));
    lemma_f16_magnitude_monotone(0, magnitude(b));
}

/// Bfloat16 truncation keeps the order of non-NaN values: a value never
/// truncates to something above what a larger value truncates to.
pub proof fn lemma_bf16_monotone(a: u64, b: u64)
    requires
        !is_nan_bits(a),
        !is_nan_bits(b),
        order_key(a) <= order_key(b),
    ensures
        order_key(spec_bf16_bits(a)) <= order_key(spec_bf16_bits(b)),
{
    lemma_bf16_key(a);
    lemma_bf16_key(b);
    if magnitude(a) <= magnitude(b) {
        lemma_bf16_magnitude_monotone(magnitude(a), magnitude(b));
    } else {
        lemma_bf16_magnitude_monotone(magnitude(b), magnitude(a));
    }
    lemma_bf16_magnitude_monotone(0, magnitude(a));
    lemma_bf16_magnitude_monotone(0, magnitude(b));
}

/// Truncating to half precision a second time changes nothing, unless the
/// first truncation produced negative zero (which the second turns into
/// positive zero).
pub proof fn lemma_f16_idempotent(b: u64)
    requires
        spec_f16_bits(b) != SIGN_MASK,
    ensures
        spec_f16_bits(spec_f16_bits(b)) == spec_f16_bits(b),
{
    let r = spec_f16_bits(b);
    let e = exponent_field(b);
    lemma_zero_bits();
    assert((b & 0x8000_0000_0000_0000u64) == 0u64 || (b & 0x8000_0000_0000_0000u64)
        == 0x8000_0000_0000_0000u64) by (bit_vector);
    if magnitude(b) == 0 || e == 0x7FF || e < 1009 {
    } else if e > 1038 {
        assert((((b & 0x8000_0000_0000_0000u64) | 0x7FF0_0000_0000_0000u64)
            & 0x7FFF_FFFF_FFFF_FFFFu64) != 0u64 && ((((b & 0x8000_0000_0000_0000u64)
            | 0x7FF0_0000_0000_0000u64) >> 52u64) & 0x7FFu64) == 0x7FFu64) by (bit_vector);
    } else {
        assert({
            let r2 = (b & 0x8000_0000_0000_0000u64) | (e << 52u64) | (((b
                & 0x000F_FFFF_FFFF_FFFFu64) >> 42u64) << 42u64);
            &&& (r2 & 0x7FFF_FFFF_FFFF_FFFFu64) != 0u64
            &&& ((r2 >> 52u64) & 0x7FFu64) == e
            &&& (r2 & 0x8000_0000_0000_0000u64) == (b & 0x8000_0000_0000_0000u64)
            &&& (((r2 & 0x000F_FFFF_FFFF_FFFFu64) >> 42u64) << 42u64) == (((b
                & 0x000F_FFFF_FFFF_FFFFu64) >> 42u64) << 42u64)
        }) by (bit_vector)
            requires
                e == ((b >> 52u64) & 0x7FFu64),
                1009u64 <= e <= 1038u64,
        ;
    }
}

/// Truncating to bfloat16 a second time changes nothing, unless the first
/// truncation produced negative zero (which the second turns into positive
/// zero).
pub proof fn lemma_bf16_idempotent(b: u64)
    requires
        spec_bf16_bits(b) != SIGN_MASK,
    ensures
        spec_bf16_bits(spec_bf16_bits(b)) == spec_bf16_bits(b),
{
    lemma_zero_bits();
    if magnitude(b) != 0 && exponent_field(b) != 0x7FF {
        let t = (b >> 45u64) << 45u64;
        assert(((t >> 45u64) << 45u64) == t) by (bit_vector)
            requires
                t == (b >> 45u64) << 45u64,
        ;
        assert((t & 0x7FFF_FFFF_FFFF_FFFFu64) == 0u64 ==> t == 0u64 || t
            == 0x8000_0000_0000_0000u64) by (bit_vector);
        assert(((t >> 52u64) & 0x7FFu64) == ((b >> 52u64) & 0x7FFu64)) by (bit_vector)
            requires
                t == (b >> 45u64) << 45u64,
        ;
    }
}

/// Bfloat16 truncation never moves a finite value away from zero: the
/// magnitude bits of the result are at most those of the argument.
pub proof fn lemma_bf16_toward_zero(b: u64)
    requires
        exponent_field(b) != 0x7FF,
    ensures
        magnitude(spec_bf16_bits(b)) <= magnitude(b),
{
    lemma_zero_bits();
    assert((((b >> 45u64) << 45u64) & 0x7FFF_FFFF_FFFF_FFFFu64) <= (b
        & 0x7FFF_FFFF_FFFF_FFFFu64)) by (bit_vector);
}

/// Half-precision truncation never moves a finite value away from zero,
/// unless the value is too large for half precision and overflows to an
/// infinity.
pub proof fn lemma_f16_toward_zero(b: u64)
    requires
        exponent_field(b) <= 1038,
    ensures
        magnitude(spec_f16_bits(b)) <= magnitude(b),
{
    let e = exponent_field(b);
    lemma_zero_bits();
    assert(((b & 0x8000_0000_0000_0000u64) & 0x7FFF_FFFF_FFFF_FFFFu64) == 0u64) by (bit_vector);
    if magnitude(b) != 0 && e >= 1009 {
        assert((((b & 0x8000_0000_0000_0000u64) | (e << 52u64) | (((b
            & 0x000F_FFFF_FFFF_FFFFu64) >> 42u64) << 42u64)) & 0x7FFF_FFFF_FFFF_FFFFu64) <= (b
            & 0x7FFF_FFFF_FFFF_FFFFu64)) by (bit_vector)
            requires
                e == ((b >> 52u64) & 0x7FFu64),
        ;
    }
}

} // verus!

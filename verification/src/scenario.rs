//! The integer parts of the pre-built drift scenarios.
use vstd::prelude::*;

verus! {

/// The sampling interval of the pre-built Eisenstein and rotation scenarios.
pub const SCENARIO_SAMPLE_INTERVAL: u64 = 10;

/// The sampling interval used when all precisions are compared over a run
/// of `iterations`: a twentieth of the run for long runs, else every tenth.
pub open spec fn spec_comparison_sample_interval(iterations: u64) -> u64 {
    if iterations > 1000 {
        (iterations / 20) as u64
    } else {
        10
    }
}

/// A comparison run longer than a thousand iterations samples every
/// twentieth of the run (rounded down): twenty intervals fit in the run and
/// twenty-one do not. Shorter runs sample every tenth iteration.
pub proof fn lemma_comparison_interval_law(iterations: u64)
    ensures
        iterations > 1000 ==> {
            let r = spec_comparison_sample_interval(iterations);
            &&& 20 * r <= iterations < 20 * (r + 1)
            &&& r >= 50
        },
        iterations <= 1000 ==> spec_comparison_sample_interval(iterations) == 10,
{
}

/// The sampling interval used when all precisions are compared.
pub fn comparison_sample_interval(iterations: u64) -> (r: u64)
    ensures
        r == spec_comparison_sample_interval(iterations),
{
    if iterations > 1000 {
        iterations / 20
    } else {
        10
    }
}

/// Whether an integer fits in an `i32`.
pub open spec fn fits_i32(x: int) -> bool {
    i32::MIN <= x <= i32::MAX
}

/// The norm `a² + ab + b²` of the Eisenstein integer `a + bω`, computed in
/// `i32` as `((a·a) + (a·b)) + (b·b)`: defined when every step of that
/// computation fits.
pub open spec fn norm_fits(a: int, b: int) -> bool {
    &&& fits_i32(a * a)
    &&& fits_i32(a * b)
    &&& fits_i32(a * a + a * b)
    &&& fits_i32(b * b)
    &&& fits_i32(a * a + a * b + b * b)
}

/// The Eisenstein norm `a² + ab + b²`, or `None` when a step of its `i32`
/// computation overflows.
pub fn eisenstein_norm(a: i32, b: i32) -> (r: Option<i32>)
    ensures
        r == (if norm_fits(a as int, b as int) {
            Some((a * a + a * b + b * b) as i32)
        } else {
            None
        }),
{
    let aa = match a.checked_mul(a) {
        Some(v) => v,
        None => return None,
    };
    let ab = match a.checked_mul(b) {
        Some(v) => v,
        None => return None,
    };
    let s = match aa.checked_add(ab) {
        Some(v) => v,
        None => return None,
    };
    let bb = match b.checked_mul(b) {
        Some(v) => v,
        None => return None,
    };
    match s.checked_add(bb) {
        Some(v) => Some(v),
        None => None,
    }
}

/// What the norm gives: when it is defined it is `a² + ab + b²`, never
/// negative; it is defined whenever both parts are at most 26754 in size
/// (so that `3·26754² < 2³¹`), and it is not when `a²` alone overflows.
pub proof fn lemma_norm_law(a: i32, b: i32)
    ensures
        norm_fits(a as int, b as int) ==> a * a + a * b + b * b >= 0,
        -26754 <= a <= 26754 && -26754 <= b <= 26754 ==> norm_fits(a as int, b as int),
        (a >= 46341 || a <= -46341) ==> !norm_fits(a as int, b as int),
{
    lemma_norm_nonnegative(a as int, b as int);
    if -26754 <= a <= 26754 && -26754 <= b <= 26754 {
        assert(0 <= a * a <= 26754 * 26754) by (nonlinear_arith)
            requires
                -26754 <= a <= 26754,
        ;
        assert(0 <= b * b <= 26754 * 26754) by (nonlinear_arith)
            requires
                -26754 <= b <= 26754,
        ;
        assert(-26754 * 26754 <= a * b <= 26754 * 26754) by (nonlinear_arith)
            requires
                -26754 <= a <= 26754,
                -26754 <= b <= 26754,
        ;
    }
    if a >= 46341 || a <= -46341 {
        assert(a * a >= 46341 * 46341) by (nonlinear_arith)
            requires
                a >= 46341 || a <= -46341,
        ;
    }
}

/// The Eisenstein norm is never negative: `a² + ab + b² ≥ 0` for all
/// integers, since four times it is `(2a + b)² + 3b²`.
pub proof fn lemma_norm_nonnegative(a: int, b: int)
    ensures
        a * a + a * b + b * b >= 0,
{
    assert(4 * (a * a + a * b + b * b) == (2 * a + b) * (2 * a + b) + 3 * (b * b))
        by (nonlinear_arith);
    assert((2 * a + b) * (2 * a + b) >= 0) by (nonlinear_arith);
    assert(b * b >= 0) by (nonlinear_arith);
}

} // verus!

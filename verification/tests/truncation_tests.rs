use drift_analyzer::truncation::{MAGNITUDE_MASK, SIGN_MASK};
use drift_analyzer::{bf16_bits, clamp_i32, f16_bits, Precision};

fn f16(v: f64) -> f64 {
    f64::from_bits(f16_bits(v.to_bits()))
}

fn bf16(v: f64) -> f64 {
    f64::from_bits(bf16_bits(v.to_bits()))
}

#[test]
fn f16_keeps_representable_values() {
    assert_eq!(f16(1.0), 1.0);
    assert_eq!(f16(-2.5), -2.5);
    assert_eq!(f16(65504.0), 65504.0);
    assert_eq!(f16(1.0 + 1.0 / 1024.0), 1.0 + 1.0 / 1024.0);
}

#[test]
fn f16_truncates_the_mantissa_toward_zero() {
    assert_eq!(f16(1.0 + 1.0 / 2048.0), 1.0);
    assert_eq!(f16(-(1.0 + 1.0 / 2048.0)), -1.0);
    assert_eq!(f16(1.0001), 1.0);
}

#[test]
fn f16_flushes_tiny_values_to_signed_zero() {
    assert_eq!(f16(1e-10).to_bits(), 0);
    assert_eq!(f16(-1e-10).to_bits(), SIGN_MASK);
    // The smallest half-precision normal, 2^-14, is kept.
    assert_eq!(f16(6.103515625e-5), 6.103515625e-5);
}

#[test]
fn f16_overflows_to_signed_infinity() {
    assert_eq!(f16(1e6), f64::INFINITY);
    assert_eq!(f16(-65536.0), f64::NEG_INFINITY);
}

#[test]
fn f16_zero_and_non_finite() {
    assert_eq!(f16(-0.0).to_bits(), 0);
    assert!(f16(f64::NAN).is_nan());
    assert_eq!(f16(f64::INFINITY), f64::INFINITY);
}

#[test]
fn bf16_keeps_seven_mantissa_bits() {
    assert_eq!(bf16(1.0 + 1.0 / 128.0), 1.0 + 1.0 / 128.0);
    assert_eq!(bf16(1.0 + 1.0 / 256.0), 1.0);
    assert_eq!(bf16(1.0001), 1.0);
    assert_eq!(bf16(-3.0), -3.0);
}

#[test]
fn bf16_keeps_the_binary64_exponent_range() {
    assert_eq!(bf16(1e300), f64::from_bits((1e300f64.to_bits() >> 45) << 45));
    assert!(bf16(1e-300) > 0.0);
}

#[test]
fn bf16_zero_and_non_finite() {
    assert_eq!(bf16(-0.0).to_bits(), 0);
    assert!(bf16(f64::NAN).is_nan());
    assert_eq!(bf16(f64::NEG_INFINITY), f64::NEG_INFINITY);
}

#[test]
fn truncating_twice_changes_nothing() {
    for v in [1.0001, -3.14159, 1e-3, 12345.678, 1e6, -1e6, 1e300, f64::INFINITY] {
        let once = f16_bits(v.to_bits());
        assert_eq!(f16_bits(once), once);
        let once = bf16_bits(v.to_bits());
        assert_eq!(bf16_bits(once), once);
    }
}

#[test]
fn negative_zero_from_truncation_becomes_positive_zero() {
    let once = f16_bits((-1e-10f64).to_bits());
    assert_eq!(once, SIGN_MASK);
    assert_eq!(f16_bits(once), 0);
}

#[test]
fn truncation_does_not_grow_finite_magnitudes() {
    for v in [1.0001f64, -3.14159, 1e-3, 12345.678, 1e-300] {
        let b = v.to_bits();
        assert!(bf16_bits(b) & MAGNITUDE_MASK <= b & MAGNITUDE_MASK);
        assert!(f16_bits(b) & MAGNITUDE_MASK <= b & MAGNITUDE_MASK);
    }
}

#[test]
fn saturation_of_integer_precisions() {
    assert_eq!(Precision::Int8.saturate(200), 127);
    assert_eq!(Precision::Int8.saturate(-300), -128);
    assert_eq!(Precision::Int8.saturate(101), 101);
    assert_eq!(Precision::Int16.saturate(40000), 32767);
    assert_eq!(Precision::Int16.saturate(-40000), -32768);
    assert_eq!(Precision::Int32.saturate(40000), 40000);
    assert_eq!(Precision::F32.saturate(-7), -7);
}

#[test]
fn clamp_limits_to_the_range() {
    assert_eq!(clamp_i32(5, 0, 3), 3);
    assert_eq!(clamp_i32(-5, 0, 3), 0);
    assert_eq!(clamp_i32(2, 0, 3), 2);
}

#[test]
fn saturating_twice_changes_nothing() {
    for p in Precision::all() {
        for v in [-100_000, -129, -128, 0, 127, 128, 40_000] {
            let once = p.saturate(v);
            assert_eq!(p.saturate(once), once);
        }
    }
}

#[test]
fn saturation_keeps_order() {
    let values = [-100_000, -32769, -129, -128, -1, 0, 127, 128, 32767, 40_000];
    for p in Precision::all() {
        for w in values.windows(2) {
            assert!(p.saturate(w[0]) <= p.saturate(w[1]));
        }
    }
}

#[test]
fn truncation_keeps_order() {
    let values = [
        f64::NEG_INFINITY, -1e300, -70000.0, -1.0001, -1.0, -1e-10, -0.0, 0.0, 1e-300, 1e-10,
        6.1e-5, 1.0, 1.0001, 1.0004, 65504.0, 65519.0, 70000.0, 1e300, f64::INFINITY,
    ];
    for w in values.windows(2) {
        assert!(f16(w[0]) <= f16(w[1]));
        assert!(bf16(w[0]) <= bf16(w[1]));
    }
}

//! The bit-level scalar predicates against the real IEEE-754 operations.

use sphere_viewer::scalar::{
    scalar_gt, scalar_is_positive_finite, scalar_lt, Scalar, INFINITY_BITS, ONE_BITS, ZERO_BITS,
};

fn s(x: f32) -> Scalar {
    Scalar { bits: x.to_bits() }
}

fn sample_values() -> Vec<f32> {
    vec![
        0.0,
        -0.0,
        0.1,
        0.3,
        0.5,
        1.0,
        2.5,
        -1.0,
        -0.3,
        -2.5,
        f32::INFINITY,
        f32::NEG_INFINITY,
        f32::NAN,
        -f32::NAN,
        f32::MIN_POSITIVE,
        -f32::MIN_POSITIVE,
        1e-45,
        -1e-45,
        f32::MAX,
        f32::MIN,
        1234.5678,
        -9876.5432,
    ]
}

#[test]
fn scalar_gt_matches_ieee_gt() {
    for &a in sample_values().iter() {
        for &b in sample_values().iter() {
            assert_eq!(
                scalar_gt(s(a), s(b)),
                a > b,
                "gt mismatch for {a} ({:#010x}) vs {b} ({:#010x})",
                a.to_bits(),
                b.to_bits()
            );
        }
    }
}

#[test]
fn scalar_lt_matches_ieee_lt() {
    for &a in sample_values().iter() {
        for &b in sample_values().iter() {
            assert_eq!(scalar_lt(s(a), s(b)), a < b, "lt mismatch for {a} vs {b}");
        }
    }
}

#[test]
fn positive_finite_matches_ieee() {
    for &a in sample_values().iter() {
        assert_eq!(
            scalar_is_positive_finite(s(a)),
            a.is_finite() && a > 0.0,
            "positive-finite mismatch for {a}"
        );
    }
}

#[test]
fn named_bit_patterns() {
    assert_eq!(ZERO_BITS, 0.0f32.to_bits());
    assert_eq!(ONE_BITS, 1.0f32.to_bits());
    assert_eq!(INFINITY_BITS, f32::INFINITY.to_bits());
}

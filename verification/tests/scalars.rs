//! Tests for the bit-pattern scalar: its constants, negation, ordering, and
//! minimum/maximum agree with machine floating point.

use geomath::Scalar;

fn s(value: f32) -> Scalar {
    Scalar { bits: value.to_bits() }
}

#[test]
fn scalar_constants_match_hardware() {
    assert_eq!(geomath::SCALAR_ZERO_BITS, 0.0f32.to_bits());
    assert_eq!(geomath::SCALAR_ONE_BITS, 1.0f32.to_bits());
    assert_eq!(geomath::SCALAR_NEG_ONE_BITS, (-1.0f32).to_bits());
    assert_eq!(geomath::SCALAR_HALF_BITS, 0.5f32.to_bits());
    assert_eq!(geomath::SCALAR_NEG_HALF_BITS, (-0.5f32).to_bits());
    assert_eq!(geomath::SCALAR_HALF_SQRT2_BITS, (core::f32::consts::SQRT_2 / 2.0).to_bits());
    assert_eq!(
        geomath::SCALAR_NEG_HALF_SQRT2_BITS,
        (-core::f32::consts::SQRT_2 / 2.0).to_bits(),
    );
    assert_eq!(geomath::SCALAR_INFINITY_BITS, f32::INFINITY.to_bits());
    assert_eq!(geomath::SCALAR_NEG_INFINITY_BITS, f32::NEG_INFINITY.to_bits());
    assert_eq!(geomath::SCALAR_SIGN_BIT, (-0.0f32).to_bits());
}

#[test]
fn scalar_neg_matches_hardware() {
    for value in [0.0f32, -0.0, 1.0, -2.5, 1e30, -1e-30, f32::INFINITY, f32::NEG_INFINITY] {
        assert_eq!(s(value).neg().bits, (-value).to_bits());
    }
}

#[test]
fn scalar_is_nan_matches_hardware() {
    for value in [0.0f32, -0.0, 1.0, -2.5, f32::INFINITY, f32::NEG_INFINITY, f32::NAN, -f32::NAN]
    {
        assert_eq!(s(value).is_nan(), value.is_nan());
    }
}

#[test]
fn scalar_le_matches_hardware() {
    let values = [
        0.0f32,
        -0.0,
        1.0,
        -1.0,
        2.5,
        -2.5,
        1e-38,
        -1e-38,
        1e30,
        f32::INFINITY,
        f32::NEG_INFINITY,
        f32::NAN,
    ];
    for a in values {
        for b in values {
            assert_eq!(s(a).le(s(b)), a <= b, "le mismatch for {a} and {b}");
        }
    }
}

#[test]
fn scalar_min_max_discard_nan() {
    assert_eq!(s(f32::NAN).min(s(3.0)).bits, 3.0f32.to_bits());
    assert_eq!(s(3.0).min(s(f32::NAN)).bits, 3.0f32.to_bits());
    assert_eq!(s(f32::NAN).max(s(3.0)).bits, 3.0f32.to_bits());
    assert_eq!(s(3.0).max(s(f32::NAN)).bits, 3.0f32.to_bits());
}

#[test]
fn scalar_min_max_on_numbers() {
    assert_eq!(s(2.0).min(s(-3.0)).bits, (-3.0f32).to_bits());
    assert_eq!(s(2.0).max(s(-3.0)).bits, 2.0f32.to_bits());
    assert_eq!(s(f32::NEG_INFINITY).min(s(7.0)).bits, f32::NEG_INFINITY.to_bits());
    assert_eq!(s(f32::INFINITY).max(s(7.0)).bits, f32::INFINITY.to_bits());
    // On ties, the left operand is kept: the two zeros compare equal.
    assert_eq!(s(-0.0).min(s(0.0)).bits, (-0.0f32).to_bits());
    assert_eq!(s(0.0).max(s(-0.0)).bits, 0.0f32.to_bits());
}

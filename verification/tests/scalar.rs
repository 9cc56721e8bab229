//! The order and classification of encodings, held against the machine's own.

use blunav::algorithms::anchor::DISTANCE_FLOOR_BITS;
use blunav::algorithms::decision::{
    GEOMETRY_THRESHOLD_BITS, STEP_TOLERANCE_BITS, SYSTEM_THRESHOLD_BITS,
};
use blunav::network::response::{HIGH_QUALITY_CONFIDENCE_BITS, HIGH_QUALITY_ERROR_BITS};
use blunav::scalar::{Scalar, INFINITY_BITS, ONE_BITS, SIGN_BIT, ZERO_BITS};

fn s(v: f64) -> Scalar {
    Scalar::from_bits(v.to_bits())
}

fn f(v: Scalar) -> f64 {
    f64::from_bits(v.to_bits())
}

fn samples() -> Vec<f64> {
    vec![
        0.0,
        -0.0,
        1.0,
        -1.0,
        0.5,
        0.7,
        0.99,
        1.0000000000000002,
        0.9999999999999999,
        1e-6,
        -1e-6,
        1e-9,
        5e-324,
        -5e-324,
        2.2250738585072014e-308,
        100.0,
        -100.0,
        1e300,
        -1e300,
        f64::MAX,
        f64::MIN,
        f64::INFINITY,
        f64::NEG_INFINITY,
        f64::NAN,
        -f64::NAN,
        f64::from_bits(0x7FF0_0000_0000_0001),
        f64::from_bits(0xFFFF_FFFF_FFFF_FFFF),
    ]
}

#[test]
fn constants_are_the_encodings_they_name() {
    assert_eq!(ZERO_BITS, 0.0f64.to_bits());
    assert_eq!(ONE_BITS, 1.0f64.to_bits());
    assert_eq!(INFINITY_BITS, f64::INFINITY.to_bits());
    assert_eq!(SIGN_BIT, (-0.0f64).to_bits());
    assert_eq!(DISTANCE_FLOOR_BITS, 1e-6f64.to_bits());
    assert_eq!(GEOMETRY_THRESHOLD_BITS, 1e-6f64.to_bits());
    assert_eq!(SYSTEM_THRESHOLD_BITS, 1e-9f64.to_bits());
    assert_eq!(STEP_TOLERANCE_BITS, 1e-6f64.to_bits());
    assert_eq!(HIGH_QUALITY_CONFIDENCE_BITS, 0.7f64.to_bits());
    assert_eq!(HIGH_QUALITY_ERROR_BITS, 100.0f64.to_bits());
    assert_eq!(Scalar::zero().to_bits(), 0.0f64.to_bits());
    assert_eq!(Scalar::one().to_bits(), 1.0f64.to_bits());
}

#[test]
fn classification_agrees_with_the_machine() {
    for v in samples() {
        assert_eq!(s(v).is_nan(), v.is_nan(), "{v:?}");
        assert_eq!(s(v).is_finite(), v.is_finite(), "{v:?}");
        assert_eq!(s(v).is_in_unit_interval(), 0.0 <= v && v <= 1.0, "{v:?}");
        assert_eq!(s(v).abs().to_bits(), v.abs().to_bits(), "{v:?}");
    }
}

#[test]
fn order_agrees_with_the_machine() {
    for a in samples() {
        for b in samples() {
            assert_eq!(s(a).lt(&s(b)), a < b, "{a:?} < {b:?}");
            assert_eq!(s(a).le(&s(b)), a <= b, "{a:?} <= {b:?}");
            assert_eq!(s(a).gt(&s(b)), a > b, "{a:?} > {b:?}");
            assert_eq!(s(a).ge(&s(b)), a >= b, "{a:?} >= {b:?}");
        }
    }
}

#[test]
fn max_takes_the_larger_and_the_second_where_they_do_not_compare() {
    assert_eq!(f(s(2.0).max(&s(1.0))), 2.0);
    assert_eq!(f(s(1.0).max(&s(2.0))), 2.0);
    assert_eq!(f(s(-1.0).max(&s(-2.0))), -1.0);
    assert_eq!(f(s(f64::NAN).max(&s(3.0))), 3.0);
    assert!(f(s(3.0).max(&s(f64::NAN))).is_nan());
}

#[test]
fn clamp_brings_numbers_into_the_unit_interval() {
    assert_eq!(f(s(-0.25).clamp_unit()), 0.0);
    assert_eq!(f(s(1.25).clamp_unit()), 1.0);
    assert_eq!(f(s(0.25).clamp_unit()), 0.25);
    assert_eq!(f(s(f64::INFINITY).clamp_unit()), 1.0);
    assert_eq!(f(s(f64::NEG_INFINITY).clamp_unit()), 0.0);
    assert!(f(s(f64::NAN).clamp_unit()).is_nan());
    for v in samples() {
        if !v.is_nan() {
            assert_eq!(f(s(v).clamp_unit()), v.clamp(0.0, 1.0), "{v:?}");
        }
    }
}

#[test]
fn per_mille_rounds_to_the_nearest_thousandth() {
    assert_eq!(s(0.0).per_mille(), 0);
    assert_eq!(s(-0.0).per_mille(), 0);
    assert_eq!(s(1.0).per_mille(), 1000);
    assert_eq!(s(0.5).per_mille(), 500);
    assert_eq!(s(0.25).per_mille(), 250);
    assert_eq!(s(0.99).per_mille(), 990);
    assert_eq!(s(0.7).per_mille(), 700);
    assert_eq!(s(0.7032420136637688).per_mille(), 703);
    assert_eq!(s(0.0004).per_mille(), 0);
    assert_eq!(s(0.0005).per_mille(), 1);
    assert_eq!(s(0.9995).per_mille(), 1000);
    assert_eq!(s(0.9994).per_mille(), 999);
    assert_eq!(s(5e-324).per_mille(), 0);
    assert_eq!(s(1e-300).per_mille(), 0);
    assert_eq!(s(0.0625).per_mille(), 63);
    assert_eq!(s(f64::NAN).per_mille(), 0);
    assert_eq!(s(-3.0).per_mille(), 0);
    assert_eq!(s(7.5).per_mille(), 1000);
    assert_eq!(s(f64::INFINITY).per_mille(), 1000);
    assert_eq!(s(f64::NEG_INFINITY).per_mille(), 0);
    let mut v: f64 = 0.0;
    while v <= 1.0 {
        let exact = (v * 1000.0 + 0.5).floor() as u64;
        let got = s(v).per_mille();
        assert!(got == exact || got + 1 == exact || got == exact + 1, "{v}");
        v += 0.000977;
    }
}

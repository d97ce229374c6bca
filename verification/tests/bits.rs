//! Tests holding the bit-pattern predicates to the floating-point semantics
//! they stand for.

use logistic_irls::bits::at_least;
use logistic_irls::bits::finite_bits;
use logistic_irls::bits::nan_bits;
use logistic_irls::bits::one_bits;
use logistic_irls::bits::positive_finite_bits;
use logistic_irls::bits::zero_or_one_bits;

#[test]
fn finiteness_matches_the_float_predicate() {
    let samples = [
        0.0,
        -0.0,
        1.0,
        -1.0,
        1.5e300,
        -2.5e-300,
        f64::MAX,
        f64::MIN_POSITIVE,
        f64::EPSILON,
        f64::INFINITY,
        f64::NEG_INFINITY,
        f64::NAN,
        -f64::NAN,
    ];
    for v in samples {
        assert_eq!(finite_bits(v.to_bits()), v.is_finite(), "value {}", v);
        assert_eq!(nan_bits(v.to_bits()), v.is_nan(), "value {}", v);
    }
}

#[test]
fn zero_and_one_are_recognised_exactly() {
    assert!(zero_or_one_bits((0.0_f64).to_bits()));
    assert!(zero_or_one_bits((-0.0_f64).to_bits()));
    assert!(zero_or_one_bits((1.0_f64).to_bits()));
    assert!(one_bits((1.0_f64).to_bits()));
    assert!(!one_bits((0.0_f64).to_bits()));
    for v in [0.5, -1.0, 1.0 + f64::EPSILON, 2.0, f64::NAN, f64::INFINITY] {
        assert!(!zero_or_one_bits(v.to_bits()), "value {}", v);
    }
}

#[test]
fn tolerance_validity_matches_the_float_predicate() {
    for good in [f64::MIN_POSITIVE, 1e-12, f64::EPSILON.sqrt(), 1.0, f64::MAX] {
        assert!(positive_finite_bits(good.to_bits()), "value {}", good);
    }
    for bad in [0.0, -0.0, -1e-12, f64::INFINITY, f64::NEG_INFINITY, f64::NAN] {
        assert!(!positive_finite_bits(bad.to_bits()), "value {}", bad);
    }
}

#[test]
fn bit_comparison_matches_the_float_comparison() {
    // For a non-negative measured distance and a positive finite tolerance,
    // the bit-level comparison must come out exactly as the numeric one —
    // NaN comparing below everything.
    let distances = [
        0.0,
        f64::MIN_POSITIVE,
        1e-12,
        1e-8,
        0.5,
        1.0,
        1e300,
        f64::INFINITY,
        f64::NAN,
    ];
    let tolerances = [f64::MIN_POSITIVE, 1e-8, 1.0, f64::MAX];
    for d in distances {
        for t in tolerances {
            assert_eq!(
                at_least(d.to_bits(), t.to_bits()),
                d >= t,
                "distance {} tolerance {}",
                d,
                t
            );
        }
    }
    // Negative distances cannot arise from a norm, but the decision is
    // still the numeric one.
    assert!(!at_least((-1.0_f64).to_bits(), (1e-8_f64).to_bits()));
}

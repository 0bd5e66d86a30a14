//! Agreement of the bit-pattern model with the hardware floating point it
//! stands for: comparisons, negation, absolute value, and halving, checked
//! pairwise over a set of patterns covering every classification.

use variates::fbits::Fp;

fn fp(x: f64) -> Fp {
    Fp::new(x.to_bits())
}

/// Patterns of every kind: zeros, subnormals, normals, infinities, NaNs.
fn witnesses() -> Vec<f64> {
    vec![
        0.0,
        -0.0,
        f64::from_bits(1),
        f64::from_bits(3),
        -f64::from_bits(1),
        f64::MIN_POSITIVE,
        0.25,
        0.5,
        1.0,
        1.5,
        2.0,
        -1.0,
        -2.5,
        1e300,
        -1e300,
        f64::MAX,
        f64::MIN,
        f64::INFINITY,
        f64::NEG_INFINITY,
        f64::NAN,
        -f64::NAN,
    ]
}

#[test]
fn comparisons_agree_with_hardware() {
    for &a in witnesses().iter() {
        for &b in witnesses().iter() {
            assert_eq!(fp(a).lt(fp(b)), a < b, "lt on {a:?} {b:?}");
            assert_eq!(fp(a).le(fp(b)), a <= b, "le on {a:?} {b:?}");
            assert_eq!(fp(a).gt(fp(b)), a > b, "gt on {a:?} {b:?}");
            assert_eq!(fp(a).ge(fp(b)), a >= b, "ge on {a:?} {b:?}");
            assert_eq!(fp(a).ieee_eq(fp(b)), a == b, "eq on {a:?} {b:?}");
        }
    }
}

#[test]
fn classification_agrees_with_hardware() {
    for &a in witnesses().iter() {
        assert_eq!(fp(a).is_nan(), a.is_nan(), "is_nan on {a:?}");
        assert_eq!(fp(a).neg().bits, (-a).to_bits(), "neg on {a:?}");
        assert_eq!(fp(a).abs().bits, a.abs().to_bits(), "abs on {a:?}");
    }
}

#[test]
fn halving_agrees_with_hardware() {
    for &a in witnesses().iter() {
        if a.is_nan() {
            // Hardware may renumber a NaN payload; the model keeps it.
            assert!(f64::from_bits(fp(a).halve().bits).is_nan());
        } else {
            assert_eq!(
                fp(a).halve().bits,
                (a / 2.0).to_bits(),
                "halve on {a:?}"
            );
        }
    }
    // The subnormal rounding edge: one unit in the last place halves to
    // zero, three round up to two (ties to even).
    assert_eq!(fp(f64::from_bits(1)).halve().bits, 0);
    assert_eq!(fp(f64::from_bits(3)).halve().bits, 2);
    assert_eq!(fp(-f64::from_bits(3)).halve().bits, (-f64::from_bits(2)).to_bits());
}

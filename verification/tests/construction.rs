//! Construction-time behaviour: validation errors, algorithm selection,
//! degenerate parameters, and equality of objects built from identical
//! parameters.

use variates::beta::{self, Beta};
use variates::multi::{ConstMultiDistribution, MultiDistribution};
use variates::chi_squared::{self, ChiSquared, ChiSquaredRepr};
use variates::fbits::Fp;
use variates::fisher_f::{self, FisherF};
use variates::gamma::{self, ExpRate, Gamma, GammaRepr};
use variates::normal_inverse_gaussian::{self, NormalInverseGaussian};
use variates::normal_truncated::{
    self, Envelope, Method, NormalTruncated, NormalTruncatedTwoSided, StandardizedBounds,
};
use variates::student_t::StudentT;
use variates::zeta::{self, Zeta};

fn fp(x: f64) -> Fp {
    Fp::new(x.to_bits())
}

fn std_bounds(mean: f64, stddev: f64, lower: f64, upper: f64) -> StandardizedBounds {
    let std_lower = (lower - mean) / stddev;
    let std_upper = (upper - mean) / stddev;
    StandardizedBounds {
        lower: fp(std_lower),
        upper: fp(std_upper),
        width: fp(std_upper - std_lower),
    }
}

fn truncated(mean: f64, stddev: f64, lower: f64, upper: f64) -> Result<NormalTruncated, normal_truncated::Error> {
    NormalTruncated::new(
        fp(mean),
        fp(stddev),
        fp(lower),
        fp(upper),
        std_bounds(mean, stddev, lower, upper),
    )
}

#[test]
fn gamma_distributions_can_be_compared() {
    assert_eq!(Gamma::new(fp(1.0), fp(2.0)), Gamma::new(fp(1.0), fp(2.0)));
}

#[test]
fn gamma_invalid_parameters() {
    assert_eq!(Gamma::new(fp(0.0), fp(1.0)), Err(gamma::Error::ShapeTooSmall));
    assert_eq!(Gamma::new(fp(-2.5), fp(1.0)), Err(gamma::Error::ShapeTooSmall));
    assert_eq!(Gamma::new(fp(f64::NAN), fp(1.0)), Err(gamma::Error::ShapeTooSmall));
    assert_eq!(Gamma::new(fp(2.0), fp(0.0)), Err(gamma::Error::ScaleTooSmall));
    assert_eq!(Gamma::new(fp(2.0), fp(-1.0)), Err(gamma::Error::ScaleTooSmall));
    assert_eq!(Gamma::new(fp(2.0), fp(f64::NAN)), Err(gamma::Error::ScaleTooSmall));
    assert_eq!(Gamma::new(fp(f64::NEG_INFINITY), fp(1.0)), Err(gamma::Error::ShapeTooSmall));
}

#[test]
fn gamma_variant_selection() {
    match Gamma::new(fp(1.0), fp(2.0)).unwrap().repr {
        GammaRepr::One(ExpRate::ReciprocalOf(s)) => assert_eq!(s, fp(2.0)),
        other => panic!("wrong variant: {:?}", other),
    }
    match Gamma::new(fp(0.5), fp(2.0)).unwrap().repr {
        GammaRepr::Small(g) => {
            assert_eq!(g.shape, fp(0.5));
            assert_eq!(g.scale, fp(2.0));
        }
        other => panic!("wrong variant: {:?}", other),
    }
    match Gamma::new(fp(7.5), fp(0.25)).unwrap().repr {
        GammaRepr::Large(g) => {
            assert_eq!(g.shape, fp(7.5));
            assert_eq!(g.scale, fp(0.25));
        }
        other => panic!("wrong variant: {:?}", other),
    }
}

#[test]
fn gamma_infinite_parameters_are_degenerate() {
    let d = Gamma::new(fp(f64::INFINITY), fp(2.0)).unwrap();
    assert_eq!(d.repr, GammaRepr::One(ExpRate::Zero));
    let d = Gamma::new(fp(2.0), fp(f64::INFINITY)).unwrap();
    assert_eq!(d.repr, GammaRepr::One(ExpRate::Zero));
    let d = Gamma::new(fp(1.0), fp(f64::INFINITY)).unwrap();
    assert_eq!(d.repr, GammaRepr::One(ExpRate::Zero));
}

#[test]
fn gamma_error_messages() {
    assert_eq!(
        gamma::Error::ShapeTooSmall.message(),
        "shape is not positive in gamma distribution"
    );
    assert_eq!(
        gamma::Error::ScaleTooSmall.message(),
        "scale is not positive in gamma distribution"
    );
    assert_eq!(
        gamma::Error::ScaleTooLarge.message(),
        "scale is infinity in gamma distribution"
    );
}

#[test]
fn chi_squared_variant_selection() {
    assert_eq!(
        ChiSquared::new(fp(1.0)).unwrap().repr,
        ChiSquaredRepr::DoFExactlyOne
    );
    assert_eq!(
        ChiSquared::new(fp(5.0)).unwrap().repr,
        ChiSquaredRepr::DoFAnythingElse(Gamma::new(fp(2.5), fp(2.0)).unwrap())
    );
    assert_eq!(
        ChiSquared::new(fp(0.5)).unwrap().repr,
        ChiSquaredRepr::DoFAnythingElse(Gamma::new(fp(0.25), fp(2.0)).unwrap())
    );
    assert_eq!(ChiSquared::new(fp(0.0)), Err(chi_squared::Error::DoFTooSmall));
    assert_eq!(ChiSquared::new(fp(-3.0)), Err(chi_squared::Error::DoFTooSmall));
    assert_eq!(ChiSquared::new(fp(f64::NAN)), Err(chi_squared::Error::DoFTooSmall));
}

#[test]
fn student_t_follows_chi_squared() {
    let t = StudentT::new(fp(11.0)).unwrap();
    assert_eq!(t.dof, fp(11.0));
    assert_eq!(t.chi, ChiSquared::new(fp(11.0)).unwrap());
    assert_eq!(StudentT::new(fp(0.0)), Err(chi_squared::Error::DoFTooSmall));
    assert_eq!(StudentT::new(fp(f64::NAN)), Err(chi_squared::Error::DoFTooSmall));
}

#[test]
fn fisher_f_invalid_parameters() {
    assert_eq!(FisherF::new(fp(0.0), fp(1.0)), Err(fisher_f::Error::MTooSmall));
    assert_eq!(FisherF::new(fp(f64::NAN), fp(1.0)), Err(fisher_f::Error::MTooSmall));
    assert_eq!(FisherF::new(fp(2.0), fp(0.0)), Err(fisher_f::Error::NTooSmall));
    assert_eq!(FisherF::new(fp(2.0), fp(-1.0)), Err(fisher_f::Error::NTooSmall));
    let f = FisherF::new(fp(4.0), fp(6.0)).unwrap();
    assert_eq!(f.sampler_m, ChiSquared::new(fp(4.0)).unwrap());
    assert_eq!(f.sampler_n, ChiSquared::new(fp(6.0)).unwrap());
    assert_eq!(f.m, fp(4.0));
    assert_eq!(f.n, fp(6.0));
}

#[test]
fn beta_invalid_parameters() {
    assert_eq!(Beta::new(fp(0.0), fp(2.0)), Err(beta::Error::AlphaTooSmall));
    assert_eq!(Beta::new(fp(f64::NAN), fp(2.0)), Err(beta::Error::AlphaTooSmall));
    assert_eq!(Beta::new(fp(2.0), fp(0.0)), Err(beta::Error::BetaTooSmall));
    assert_eq!(Beta::new(fp(2.0), fp(f64::NAN)), Err(beta::Error::BetaTooSmall));
    let b = Beta::new(fp(2.0), fp(3.0)).unwrap();
    assert_eq!(b.gamma_a, Gamma::new(fp(2.0), fp(1.0)).unwrap());
    assert_eq!(b.gamma_b, Gamma::new(fp(3.0), fp(1.0)).unwrap());
}

#[test]
fn truncated_normal_invalid_parameters() {
    assert_eq!(truncated(0.0, 0.0, -1.0, 1.0), Err(normal_truncated::Error::InvalidStdDev));
    assert_eq!(truncated(0.0, -1.0, -1.0, 1.0), Err(normal_truncated::Error::InvalidStdDev));
    assert_eq!(truncated(0.0, f64::NAN, -1.0, 1.0), Err(normal_truncated::Error::InvalidStdDev));
    assert_eq!(truncated(0.0, 1.0, 1.0, 1.0), Err(normal_truncated::Error::InvalidBounds));
    assert_eq!(truncated(0.0, 1.0, 2.0, -2.0), Err(normal_truncated::Error::InvalidBounds));
    assert_eq!(truncated(0.0, 1.0, f64::NAN, 1.0), Err(normal_truncated::Error::InvalidBounds));
    assert_eq!(truncated(0.0, 1.0, -1.0, f64::NAN), Err(normal_truncated::Error::InvalidBounds));
}

#[test]
fn truncated_normal_method_selection() {
    // Wide interval straddling the mean: naive rejection.
    match truncated(0.0, 1.0, -1.0, 1.0).unwrap().0 {
        Method::Rejection(d) => {
            assert_eq!(d.lower, fp(-1.0));
            assert_eq!(d.upper, fp(1.0));
        }
        other => panic!("wrong method: {:?}", other),
    }
    // Both bounds infinite: naive rejection (never truncates).
    match truncated(1.0, 2.0, f64::NEG_INFINITY, f64::INFINITY).unwrap().0 {
        Method::Rejection(_) => {}
        other => panic!("wrong method: {:?}", other),
    }
    // Lower bound far into the upper tail: one-sided, not mirrored.
    match truncated(0.0, 1.0, 3.0, f64::INFINITY).unwrap().0 {
        Method::OneSided(true, d) => assert_eq!(d.lower_bound, fp(3.0)),
        other => panic!("wrong method: {:?}", other),
    }
    // Lower bound only slightly above the mean: naive rejection still wins.
    match truncated(0.0, 1.0, 0.25, f64::INFINITY).unwrap().0 {
        Method::Rejection(_) => {}
        other => panic!("wrong method: {:?}", other),
    }
    // Upper bound far into the lower tail: one-sided, mirrored.
    match truncated(0.0, 1.0, f64::NEG_INFINITY, -3.0).unwrap().0 {
        Method::OneSided(false, d) => {
            assert_eq!(d.lower_bound, fp(3.0));
            assert_eq!(d.mu, fp(-0.0));
        }
        other => panic!("wrong method: {:?}", other),
    }
    // Narrow interval away from the mean: two-sided.
    match truncated(0.0, 1.0, 2.2, 2.8).unwrap().0 {
        Method::TwoSided(d) => {
            assert_eq!(d.standard_lower, fp(2.2));
            assert_eq!(d.standard_upper, fp(2.8));
        }
        other => panic!("wrong method: {:?}", other),
    }
}

#[test]
fn truncated_normal_distributions_can_be_compared() {
    assert_eq!(truncated(1.0, 2.0, -1.0, 4.0), truncated(1.0, 2.0, -1.0, 4.0));
}

#[test]
fn test_normal_inverse_gaussian_invalid_param() {
    assert!(NormalInverseGaussian::new(fp(-1.0), fp(1.0)).is_err());
    assert!(NormalInverseGaussian::new(fp(-1.0), fp(-1.0)).is_err());
    assert!(NormalInverseGaussian::new(fp(1.0), fp(2.0)).is_err());
    assert!(NormalInverseGaussian::new(fp(f64::INFINITY), fp(2.0)).is_err());
    assert!(NormalInverseGaussian::new(fp(2.0), fp(1.0)).is_ok());
}

#[test]
fn normal_inverse_gaussian_named_errors() {
    assert_eq!(
        NormalInverseGaussian::new(fp(0.0), fp(0.0)),
        Err(normal_inverse_gaussian::Error::AlphaNegativeOrNull)
    );
    assert_eq!(
        NormalInverseGaussian::new(fp(f64::NAN), fp(0.0)),
        Err(normal_inverse_gaussian::Error::AlphaNegativeOrNull)
    );
    assert_eq!(
        NormalInverseGaussian::new(fp(1.0), fp(-2.0)),
        Err(normal_inverse_gaussian::Error::AbsoluteBetaNotLessThanAlpha)
    );
    assert_eq!(
        NormalInverseGaussian::new(fp(1.0), fp(f64::NAN)),
        Err(normal_inverse_gaussian::Error::AbsoluteBetaNotLessThanAlpha)
    );
    assert_eq!(
        NormalInverseGaussian::new(fp(f64::INFINITY), fp(2.0)),
        Err(normal_inverse_gaussian::Error::AlphaInfinite)
    );
    assert_eq!(
        NormalInverseGaussian::new(fp(f64::INFINITY), fp(f64::NEG_INFINITY)),
        Err(normal_inverse_gaussian::Error::AbsoluteBetaNotLessThanAlpha)
    );
}

#[test]
fn normal_inverse_gaussian_error_messages() {
    assert_eq!(
        normal_inverse_gaussian::Error::AlphaNegativeOrNull.message(),
        "alpha <= 0 or is NaN in normal inverse Gaussian distribution"
    );
    assert_eq!(
        normal_inverse_gaussian::Error::AlphaInfinite.message(),
        "alpha is +infinity (or too close to the maximum finite value, if subnormal numbers are not supported) in normal inverse Gaussian distribution"
    );
    assert_eq!(
        normal_inverse_gaussian::Error::AbsoluteBetaNotLessThanAlpha.message(),
        "|beta| >= alpha or is NaN in normal inverse Gaussian distribution"
    );
}

#[test]
fn two_sided_envelope_selection() {
    let mk = |lo: f64, hi: f64| NormalTruncatedTwoSided {
        mu: fp(0.0),
        sigma: fp(1.0),
        standard_lower: fp(lo),
        standard_upper: fp(hi),
    };
    assert_eq!(mk(-0.5, 0.5).envelope(), Envelope::Straddling);
    assert_eq!(mk(-0.5, 0.0).envelope(), Envelope::Straddling);
    assert_eq!(mk(-2.8, -2.2).envelope(), Envelope::AllNegative);
    assert_eq!(mk(2.2, 2.8).envelope(), Envelope::AllPositive);
}

#[test]
fn normal_inverse_gaussian_distributions_can_be_compared() {
    assert_eq!(
        NormalInverseGaussian::new(fp(1.0), fp(2.0)),
        NormalInverseGaussian::new(fp(1.0), fp(2.0))
    );
}

/// A two-dimensional distribution built over two Gamma components,
/// exercising the multi-dimensional abstraction.
struct GammaPair {
    components: [Gamma; 2],
}

impl MultiDistribution<f64> for GammaPair {
    fn sample_len(&self) -> usize {
        self.components.len()
    }
}

impl ConstMultiDistribution<f64> for GammaPair {
    const SAMPLE_LEN: usize = 2;
}

#[test]
fn multi_distribution_dimension() {
    let pair = GammaPair {
        components: [
            Gamma::new(fp(2.0), fp(1.0)).unwrap(),
            Gamma::new(fp(3.0), fp(1.0)).unwrap(),
        ],
    };
    assert_eq!(pair.sample_len(), 2);
    assert_eq!(<GammaPair as ConstMultiDistribution<f64>>::SAMPLE_LEN, 2);
}

#[test]
#[should_panic]
fn invalid() {
    Zeta::new(fp(1.)).unwrap();
}

#[test]
#[should_panic]
fn nan() {
    Zeta::new(fp(f64::NAN)).unwrap();
}

#[test]
fn zeta_named_errors() {
    assert_eq!(Zeta::new(fp(0.99)), Err(zeta::Error::ATooSmall));
    assert_eq!(Zeta::new(fp(-4.0)), Err(zeta::Error::ATooSmall));
    assert_eq!(Zeta::new(fp(2.0)).unwrap().a, fp(2.0));
    assert_eq!(
        zeta::Error::ATooSmall.message(),
        "a <= 0 or is NaN in Zeta distribution"
    );
    assert_eq!(Zeta::new(fp(1.5)), Zeta::new(fp(1.5)));
}

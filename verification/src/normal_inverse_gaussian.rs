//! The normal-inverse Gaussian distribution `NIG(alpha, beta)`.
//!
//! A continuous law with tail-heaviness `alpha` and asymmetry `beta`,
//! sampled with no rejection loop of its own: the sampler draws an inverse
//! Gaussian value `ig` with mean `mu = 1/gamma`, where
//! `gamma = alpha·sqrt(1 − (beta/alpha)²)`, and returns
//! `beta·ig + sqrt(ig)·n` for a standard normal draw `n`. Construction
//! validates the two parameters; the sampler derives `mu` from them.

use vstd::prelude::*;

use crate::fbits::{Fp, f_lt, f_gt, f_eq, magnitude, is_finite_bits, B_ZERO, B_POS_INF};

verus! {

/// Error type returned from [`NormalInverseGaussian::new`].
#[derive(Clone, Copy, Debug, PartialEq, Eq, Structural)]
pub enum Error {
    /// `alpha <= 0` or `nan`.
    AlphaNegativeOrNull,
    /// `alpha` is `inf` (or, if subnormals are disabled, too close to the
    /// maximum finite float value).
    AlphaInfinite,
    /// `|beta| >= alpha` or `nan`.
    AbsoluteBetaNotLessThanAlpha,
}

impl Error {
    /// The description of the failure.
    pub fn message(&self) -> (r: &'static str)
        ensures
            r@ == match *self {
                Error::AlphaNegativeOrNull => "alpha <= 0 or is NaN in normal inverse Gaussian distribution"@,
                Error::AlphaInfinite => "alpha is +infinity (or too close to the maximum finite value, if subnormal numbers are not supported) in normal inverse Gaussian distribution"@,
                Error::AbsoluteBetaNotLessThanAlpha => "|beta| >= alpha or is NaN in normal inverse Gaussian distribution"@,
            },
    {
        match *self {
            Error::AlphaNegativeOrNull => "alpha <= 0 or is NaN in normal inverse Gaussian distribution",
            Error::AlphaInfinite => "alpha is +infinity (or too close to the maximum finite value, if subnormal numbers are not supported) in normal inverse Gaussian distribution",
            Error::AbsoluteBetaNotLessThanAlpha => "|beta| >= alpha or is NaN in normal inverse Gaussian distribution",
        }
    }
}

/// The normal-inverse Gaussian distribution `NIG(alpha, beta)`, validated.
///
/// The sampler derives `gamma = alpha·sqrt(1 − (beta/alpha)²)` and the
/// inverse-Gaussian mean `mu = 1/gamma` from the stored parameters.
#[derive(Clone, Copy, Debug, PartialEq, Eq, Structural)]
pub struct NormalInverseGaussian {
    /// The validated tail-heaviness parameter: finite, positive.
    pub alpha: Fp,
    /// The validated asymmetry parameter: `|beta| < alpha`.
    pub beta: Fp,
}

/// What [`NormalInverseGaussian::new`] returns, as a function of the
/// parameter patterns.
pub open spec fn spec_new(alpha: u64, beta: u64) -> Result<NormalInverseGaussian, Error> {
    if !f_gt(alpha, B_ZERO) {
        Err(Error::AlphaNegativeOrNull)
    } else if !f_lt(magnitude(beta), alpha) {
        Err(Error::AbsoluteBetaNotLessThanAlpha)
    } else if f_eq(alpha, B_POS_INF) {
        Err(Error::AlphaInfinite)
    } else {
        Ok(NormalInverseGaussian { alpha: Fp { bits: alpha }, beta: Fp { bits: beta } })
    }
}

impl NormalInverseGaussian {
    /// The invariant of a constructed object.
    pub open spec fn wf(self) -> bool {
        f_gt(self.alpha.bits, B_ZERO) && is_finite_bits(self.alpha.bits) && f_lt(
            magnitude(self.beta.bits),
            self.alpha.bits,
        )
    }

    /// Construct a new `NormalInverseGaussian` distribution with the given
    /// alpha (tail heaviness) and beta (asymmetry) parameters.
    ///
    /// An alpha that is not positive (a NaN fails every check) is rejected
    /// as [`Error::AlphaNegativeOrNull`], then a beta whose absolute value
    /// is not below alpha as [`Error::AbsoluteBetaNotLessThanAlpha`]. An
    /// infinite alpha is rejected as [`Error::AlphaInfinite`]: for it, and
    /// for it alone, the derived inverse-Gaussian mean `mu = 1/gamma`
    /// underflows to zero — `sqrt(1 − (beta/alpha)²)` never exceeds one, so
    /// `gamma` never exceeds `alpha`, and with subnormal numbers available
    /// the reciprocal of a finite positive `gamma` (or of zero) stays
    /// positive. Every other pair of parameters is accepted.
    pub fn new(alpha: Fp, beta: Fp) -> (r: Result<NormalInverseGaussian, Error>)
        ensures
            r == spec_new(alpha.bits, beta.bits),
            (r == Err::<NormalInverseGaussian, Error>(Error::AlphaNegativeOrNull)) <==> !f_gt(
                alpha.bits,
                B_ZERO,
            ),
            (r == Err::<NormalInverseGaussian, Error>(Error::AbsoluteBetaNotLessThanAlpha)) <==> (
            f_gt(alpha.bits, B_ZERO) && !f_lt(magnitude(beta.bits), alpha.bits)),
            (r == Err::<NormalInverseGaussian, Error>(Error::AlphaInfinite)) <==> (f_gt(
                alpha.bits,
                B_ZERO,
            ) && f_lt(magnitude(beta.bits), alpha.bits) && f_eq(alpha.bits, B_POS_INF)),
            r is Ok <==> (f_gt(alpha.bits, B_ZERO) && f_lt(magnitude(beta.bits), alpha.bits)
                && !f_eq(alpha.bits, B_POS_INF)),
            r matches Ok(d) ==> d.wf(),
    {
        let zero = Fp::new(B_ZERO);
        let pos_inf = Fp::new(B_POS_INF);
        if !alpha.gt(zero) {
            return Err(Error::AlphaNegativeOrNull);
        }
        if !beta.abs().lt(alpha) {
            return Err(Error::AbsoluteBetaNotLessThanAlpha);
        }
        if alpha.ieee_eq(pos_inf) {
            return Err(Error::AlphaInfinite);
        }
        Ok(NormalInverseGaussian { alpha, beta })
    }
}

/// Construction is deterministic: two results obtained from identical
/// parameters are the same value.
pub proof fn lemma_construction_deterministic(
    a: Result<NormalInverseGaussian, Error>,
    b: Result<NormalInverseGaussian, Error>,
    alpha: Fp,
    beta: Fp,
)
    requires
        a == spec_new(alpha.bits, beta.bits),
        b == spec_new(alpha.bits, beta.bits),
    ensures
        a == b,
{
}

} // verus!

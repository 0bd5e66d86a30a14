//! The Gamma distribution `Gamma(shape, scale)`.
//!
//! Construction validates the two parameters and selects, once and for all,
//! the algorithm a sampler must run:
//!
//! - `shape == 1`: an exponential with rate `1/scale`, a closed form with no
//!   rejection loop;
//! - `shape < 1`: boosting — the sampler draws from the large-shape
//!   algorithm at `shape + 1` and multiplies by `U^(1/shape)` for a uniform
//!   `U` on `(0,1]`;
//! - `shape > 1`: the Marsaglia–Tsang rejection method, whose per-iteration
//!   accept/reject decision is [`large_shape_step`];
//! - an infinite `shape` or `scale` short-circuits to the degenerate
//!   exponential of rate zero, a point mass at `+infinity`.
//!
//! The selected variant owns its validated parameters as bit patterns; the
//! hosting sampler derives the floating-point constants (`d = shape − 1/3`,
//! `c = 1/sqrt(9·d)`, the reciprocals) from them when it starts drawing.

use vstd::prelude::*;

use crate::fbits::{Fp, f_lt, f_le, f_gt, f_eq, is_finite_bits, B_ZERO, B_ONE, B_POS_INF};

verus! {

/// Error type returned from [`Gamma::new`].
#[derive(Clone, Copy, Debug, PartialEq, Eq, Structural)]
pub enum Error {
    /// `shape <= 0` or `nan`.
    ShapeTooSmall,
    /// `scale <= 0` or `nan`.
    ScaleTooSmall,
    /// `1 / scale == 0`.
    ///
    /// With subnormal numbers available, the reciprocal of a positive finite
    /// binary64 value never rounds to zero, and an infinite scale is routed
    /// to the degenerate point mass instead, so construction never actually
    /// reports this; the variant remains part of the error surface.
    ScaleTooLarge,
}

impl Error {
    /// The description of the failure.
    pub fn message(&self) -> (r: &'static str)
        ensures
            r@ == match *self {
                Error::ShapeTooSmall => "shape is not positive in gamma distribution"@,
                Error::ScaleTooSmall => "scale is not positive in gamma distribution"@,
                Error::ScaleTooLarge => "scale is infinity in gamma distribution"@,
            },
    {
        match *self {
            Error::ShapeTooSmall => "shape is not positive in gamma distribution",
            Error::ScaleTooSmall => "scale is not positive in gamma distribution",
            Error::ScaleTooLarge => "scale is infinity in gamma distribution",
        }
    }
}

/// The rate of the exponential a `shape == 1` (or degenerate) Gamma
/// delegates to.
#[derive(Clone, Copy, Debug, PartialEq, Eq, Structural)]
pub enum ExpRate {
    /// Rate zero: the degenerate exponential, a point mass at `+infinity`.
    Zero,
    /// Rate `1/scale`; the sampler takes the reciprocal when it starts.
    ReciprocalOf(Fp),
}

/// The Marsaglia–Tsang variant, for a finite shape above one. The sampler
/// derives `d = shape − 1/3` and `c = 1/sqrt(9·d)` from the stored shape.
#[derive(Clone, Copy, Debug, PartialEq, Eq, Structural)]
pub struct GammaLargeShape {
    /// The validated shape: finite, above one.
    pub shape: Fp,
    /// The validated scale: finite, positive.
    pub scale: Fp,
}

/// The boosting variant, for a shape below one. The sampler draws from the
/// large-shape algorithm at `shape + 1` and applies `U^(1/shape)`.
#[derive(Clone, Copy, Debug, PartialEq, Eq, Structural)]
pub struct GammaSmallShape {
    /// The validated shape: positive, below one.
    pub shape: Fp,
    /// The validated scale: finite, positive.
    pub scale: Fp,
}

/// The algorithm variant selected at construction, never re-derived.
#[derive(Clone, Copy, Debug, PartialEq, Eq, Structural)]
pub enum GammaRepr {
    /// Marsaglia–Tsang rejection sampling, `shape > 1`.
    Large(GammaLargeShape),
    /// Direct exponential sampling, `shape == 1` or the degenerate cases.
    One(ExpRate),
    /// Boosting from `shape + 1`, `shape < 1`.
    Small(GammaSmallShape),
}

/// The Gamma distribution `Gamma(shape, scale)`, validated and with its
/// algorithm variant selected.
#[derive(Clone, Copy, Debug, PartialEq, Eq, Structural)]
pub struct Gamma {
    /// The selected algorithm variant.
    pub repr: GammaRepr,
}

/// What [`Gamma::new`] returns, as a function of the parameter patterns.
pub open spec fn spec_new(shape: u64, scale: u64) -> Result<Gamma, Error> {
    if !f_gt(shape, B_ZERO) {
        Err(Error::ShapeTooSmall)
    } else if !f_gt(scale, B_ZERO) {
        Err(Error::ScaleTooSmall)
    } else if f_eq(shape, B_POS_INF) || f_eq(scale, B_POS_INF) {
        Ok(Gamma { repr: GammaRepr::One(ExpRate::Zero) })
    } else if f_eq(shape, B_ONE) {
        Ok(Gamma { repr: GammaRepr::One(ExpRate::ReciprocalOf(Fp { bits: scale })) })
    } else if f_lt(shape, B_ONE) {
        Ok(Gamma {
            repr: GammaRepr::Small(GammaSmallShape { shape: Fp { bits: shape }, scale: Fp { bits: scale } }),
        })
    } else {
        Ok(Gamma {
            repr: GammaRepr::Large(GammaLargeShape { shape: Fp { bits: shape }, scale: Fp { bits: scale } }),
        })
    }
}

impl Gamma {
    /// The invariant of a constructed object: each variant holds parameters
    /// in the range its algorithm was selected for.
    pub open spec fn wf(self) -> bool {
        match self.repr {
            GammaRepr::Large(g) => f_gt(g.shape.bits, B_ONE) && is_finite_bits(g.shape.bits)
                && f_gt(g.scale.bits, B_ZERO) && is_finite_bits(g.scale.bits),
            GammaRepr::One(rate) => match rate {
                ExpRate::Zero => true,
                ExpRate::ReciprocalOf(s) => f_gt(s.bits, B_ZERO) && is_finite_bits(s.bits),
            },
            GammaRepr::Small(g) => f_gt(g.shape.bits, B_ZERO) && f_lt(g.shape.bits, B_ONE)
                && f_gt(g.scale.bits, B_ZERO) && is_finite_bits(g.scale.bits),
        }
    }

    /// Construct an object representing the `Gamma(shape, scale)`
    /// distribution.
    ///
    /// A shape that is not positive (a NaN fails every positivity check) is
    /// rejected as [`Error::ShapeTooSmall`], then a scale that is not
    /// positive as [`Error::ScaleTooSmall`]; every other pair of parameters
    /// is accepted, and the variant selected for it is exactly the one
    /// [`spec_new`] names.
    pub fn new(shape: Fp, scale: Fp) -> (r: Result<Gamma, Error>)
        ensures
            r == spec_new(shape.bits, scale.bits),
            (r == Err::<Gamma, Error>(Error::ShapeTooSmall)) <==> !f_gt(shape.bits, B_ZERO),
            (r == Err::<Gamma, Error>(Error::ScaleTooSmall)) <==> (f_gt(shape.bits, B_ZERO)
                && !f_gt(scale.bits, B_ZERO)),
            r != Err::<Gamma, Error>(Error::ScaleTooLarge),
            r is Ok <==> (f_gt(shape.bits, B_ZERO) && f_gt(scale.bits, B_ZERO)),
            r matches Ok(g) ==> g.wf(),
    {
        let zero = Fp::new(B_ZERO);
        let one = Fp::new(B_ONE);
        let pos_inf = Fp::new(B_POS_INF);
        if !shape.gt(zero) {
            return Err(Error::ShapeTooSmall);
        }
        if !scale.gt(zero) {
            return Err(Error::ScaleTooSmall);
        }
        let repr = if shape.ieee_eq(pos_inf) || scale.ieee_eq(pos_inf) {
            GammaRepr::One(ExpRate::Zero)
        } else if shape.ieee_eq(one) {
            GammaRepr::One(ExpRate::ReciprocalOf(scale))
        } else if shape.lt(one) {
            GammaRepr::Small(GammaSmallShape { shape, scale })
        } else {
            GammaRepr::Large(GammaLargeShape { shape, scale })
        };
        Ok(Gamma { repr })
    }
}

/// The first decision of a Marsaglia–Tsang iteration: a candidate whose
/// cube base `v_cbrt = 1 + c·x` is not positive is discarded at once, before
/// the uniform draw is even taken.
pub fn cube_base_rejected(v_cbrt: Fp) -> (r: bool)
    ensures
        r == f_le(v_cbrt.bits, B_ZERO),
{
    let zero = Fp::new(B_ZERO);
    v_cbrt.le(zero)
}

/// The acceptance decision of a Marsaglia–Tsang iteration whose cube base
/// survived [`cube_base_rejected`], taken on the quantities the sampler
/// computed from its normal draw `x` and uniform draw `u`: `u` itself, the
/// fast-path cap `1 − 0.0331·x⁴`, `ln u`, and the exact-test cap
/// `x²/2 + d·(1 − v + ln v)` where `v = v_cbrt³`. The candidate is accepted
/// — and the sample is `d·v·scale` — exactly when the fast comparison or
/// the exact logarithmic comparison succeeds; NaN quantities (of which
/// neither comparison holds) accept nothing.
pub fn large_shape_accept(u: Fp, fast_cap: Fp, log_u: Fp, exact_cap: Fp) -> (r: bool)
    ensures
        r == (f_lt(u.bits, fast_cap.bits) || f_lt(log_u.bits, exact_cap.bits)),
{
    u.lt(fast_cap) || log_u.lt(exact_cap)
}

/// Construction is deterministic: two results obtained from identical
/// parameters are the same value, so the objects are interchangeable as
/// samplers.
pub proof fn lemma_construction_deterministic(
    a: Result<Gamma, Error>,
    b: Result<Gamma, Error>,
    shape: Fp,
    scale: Fp,
)
    requires
        a == spec_new(shape.bits, scale.bits),
        b == spec_new(shape.bits, scale.bits),
    ensures
        a == b,
{
}

/// An infinite shape or an infinite scale (the other parameter positive)
/// constructs the degenerate variant: the exponential of rate zero, whose
/// every sample is `+infinity`.
pub proof fn lemma_infinite_parameters_degenerate(shape: Fp, scale: Fp)
    requires
        f_gt(shape.bits, B_ZERO),
        f_gt(scale.bits, B_ZERO),
        shape.bits == B_POS_INF || scale.bits == B_POS_INF,
    ensures
        spec_new(shape.bits, scale.bits) == Ok::<Gamma, Error>(
            Gamma { repr: GammaRepr::One(ExpRate::Zero) },
        ),
{
}

} // verus!

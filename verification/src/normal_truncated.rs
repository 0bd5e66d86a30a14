//! The truncated normal distribution.
//!
//! Construction standardizes the truncation bounds and selects, once, one of
//! three rejection strategies, chosen so that the expected number of
//! rejection-loop iterations stays a small constant wherever the interval
//! sits relative to the mean:
//!
//! - naive rejection, when an ordinary normal draw lands in the interval
//!   often enough (a wide interval, or one straddling the mean);
//! - one-sided rejection with an exponential proposal, after Robert (1995),
//!   when a single finite bound lies far enough into a tail;
//! - two-sided rejection with a uniform proposal, when both bounds are
//!   finite, close together, and away from the mean.
//!
//! The standardized coordinates `(bound − mean)/stddev` and their spread are
//! floating-point quotients; the caller computes them and passes them in as
//! [`StandardizedBounds`], and every comparison made on them here is
//! verified. The sampler then drives its loop with the acceptance decisions
//! below.

use vstd::prelude::*;

use crate::fbits::{
    Fp, f_lt, f_le, f_gt, f_ge, f_eq, negated, B_ZERO, B_HALF, B_NEG_HALF, B_ONE, B_NEG_ONE,
    B_POS_INF, B_NEG_INF,
};

verus! {

/// Errors that can occur when constructing a `NormalTruncated` distribution.
#[derive(Clone, Copy, Debug, PartialEq, Eq, Structural)]
pub enum Error {
    /// The standard deviation was not positive.
    InvalidStdDev,
    /// The lower bound was not less than the upper bound.
    InvalidBounds,
}

/// The truncation bounds in standard-normal coordinates, computed by the
/// caller from the raw parameters: `lower = (lower bound − mean)/stddev`,
/// `upper = (upper bound − mean)/stddev`, and `width = upper − lower`.
#[derive(Clone, Copy, Debug, PartialEq, Eq, Structural)]
pub struct StandardizedBounds {
    /// The lower truncation bound, standardized.
    pub lower: Fp,
    /// The upper truncation bound, standardized.
    pub upper: Fp,
    /// The width `upper − lower` of the standardized interval.
    pub width: Fp,
}

/// Naive rejection: draw ordinary normal samples until one lands in
/// `[lower, upper]`. Used when the acceptance probability is high enough.
#[derive(Clone, Copy, Debug, PartialEq, Eq, Structural)]
pub struct NormalTruncatedRejection {
    /// The mean of the underlying normal.
    pub mean: Fp,
    /// The standard deviation of the underlying normal: positive.
    pub stddev: Fp,
    /// The lower truncation bound, in the original coordinates.
    pub lower: Fp,
    /// The upper truncation bound, in the original coordinates.
    pub upper: Fp,
}

/// One-sided rejection with an exponential proposal of rate
/// `alpha_star = (b + sqrt(b² + 4))/2`, where `b` is the standardized bound;
/// the sampler derives `alpha_star` from the stored bound. A proposal `z` is
/// accepted with probability `exp(−(z − alpha_star)²/2)` and the sample is
/// `mu + sigma·z`.
#[derive(Clone, Copy, Debug, PartialEq, Eq, Structural)]
pub struct NormalTruncatedOneSided {
    /// The mean the sample is shifted by (negated for an upper-only bound).
    pub mu: Fp,
    /// The standard deviation the sample is scaled by: positive.
    pub sigma: Fp,
    /// The standardized truncation bound: at least one half.
    pub lower_bound: Fp,
}

/// Two-sided rejection: draw `z` uniformly on the standardized interval and
/// accept with probability `exp(−z²/2)`, normalized against whichever bound
/// is closer to zero (see [`Envelope`]); the sample is `mu + sigma·z`.
#[derive(Clone, Copy, Debug, PartialEq, Eq, Structural)]
pub struct NormalTruncatedTwoSided {
    /// The mean the sample is shifted by.
    pub mu: Fp,
    /// The standard deviation the sample is scaled by: positive.
    pub sigma: Fp,
    /// The lower truncation bound, in standard normal coordinates.
    pub standard_lower: Fp,
    /// The upper truncation bound, in standard normal coordinates.
    pub standard_upper: Fp,
}

/// The rejection strategy selected at construction, never re-derived.
#[derive(Clone, Copy, Debug, PartialEq, Eq, Structural)]
pub enum Method {
    /// Naive rejection against the untruncated normal.
    Rejection(NormalTruncatedRejection),
    /// One-sided truncation; the flag is true when the lower bound is the
    /// finite one, false when the distribution is mirrored for an upper
    /// bound (the sampler then negates what the mirrored sampler returns).
    OneSided(bool, NormalTruncatedOneSided),
    /// Two-sided truncation with a uniform proposal.
    TwoSided(NormalTruncatedTwoSided),
}

/// The truncated normal distribution, validated and with its rejection
/// strategy selected.
#[derive(Clone, Copy, Debug, PartialEq, Eq, Structural)]
pub struct NormalTruncated(pub Method);

/// What [`NormalTruncated::new`] returns, as a function of the parameter
/// patterns and the standardized bounds.
pub open spec fn spec_new(
    mean: u64,
    stddev: u64,
    lower: u64,
    upper: u64,
    std: StandardizedBounds,
) -> Result<NormalTruncated, Error> {
    if !f_gt(stddev, B_ZERO) {
        Err(Error::InvalidStdDev)
    } else if !f_lt(lower, upper) {
        Err(Error::InvalidBounds)
    } else if f_eq(upper, B_POS_INF) {
        if f_ge(std.lower.bits, B_HALF) {
            Ok(NormalTruncated(Method::OneSided(
                true,
                NormalTruncatedOneSided {
                    mu: Fp { bits: mean },
                    sigma: Fp { bits: stddev },
                    lower_bound: std.lower,
                },
            )))
        } else {
            Ok(NormalTruncated(Method::Rejection(NormalTruncatedRejection {
                mean: Fp { bits: mean },
                stddev: Fp { bits: stddev },
                lower: Fp { bits: lower },
                upper: Fp { bits: upper },
            })))
        }
    } else if f_eq(lower, B_NEG_INF) {
        if f_le(std.upper.bits, B_NEG_HALF) {
            Ok(NormalTruncated(Method::OneSided(
                false,
                NormalTruncatedOneSided {
                    mu: Fp { bits: negated(mean) },
                    sigma: Fp { bits: stddev },
                    lower_bound: Fp { bits: negated(std.upper.bits) },
                },
            )))
        } else {
            Ok(NormalTruncated(Method::Rejection(NormalTruncatedRejection {
                mean: Fp { bits: mean },
                stddev: Fp { bits: stddev },
                lower: Fp { bits: lower },
                upper: Fp { bits: upper },
            })))
        }
    } else {
        if f_ge(std.width.bits, B_ONE) && f_le(std.lower.bits, B_ONE) && f_ge(
            std.upper.bits,
            B_NEG_ONE,
        ) {
            Ok(NormalTruncated(Method::Rejection(NormalTruncatedRejection {
                mean: Fp { bits: mean },
                stddev: Fp { bits: stddev },
                lower: Fp { bits: lower },
                upper: Fp { bits: upper },
            })))
        } else {
            Ok(NormalTruncated(Method::TwoSided(NormalTruncatedTwoSided {
                mu: Fp { bits: mean },
                sigma: Fp { bits: stddev },
                standard_lower: std.lower,
                standard_upper: std.upper,
            })))
        }
    }
}

impl NormalTruncated {
    /// The invariant of a constructed object: the scale is positive, the
    /// interval is proper, and a one-sided method only ever holds a
    /// standardized bound at least one half into the tail.
    pub open spec fn wf(self) -> bool {
        match self.0 {
            Method::Rejection(d) => f_gt(d.stddev.bits, B_ZERO) && f_lt(d.lower.bits, d.upper.bits),
            Method::OneSided(_, d) => f_gt(d.sigma.bits, B_ZERO) && f_ge(d.lower_bound.bits, B_HALF),
            Method::TwoSided(d) => f_gt(d.sigma.bits, B_ZERO),
        }
    }

    /// Constructs a new `NormalTruncated` distribution with the given mean,
    /// standard deviation, lower bound, and upper bound, the caller having
    /// standardized the bounds.
    ///
    /// A standard deviation that is not positive (a NaN fails the check) is
    /// rejected as [`Error::InvalidStdDev`]; bounds not in strict order (or
    /// either a NaN) as [`Error::InvalidBounds`]; every other parameter
    /// tuple is accepted, with the strategy [`spec_new`] names: one-sided
    /// for a single finite bound at least one half into a tail (mirrored,
    /// by negating mean and bound, when the finite bound is the upper one),
    /// two-sided for a narrow off-center finite interval, naive rejection
    /// otherwise.
    pub fn new(mean: Fp, stddev: Fp, lower: Fp, upper: Fp, std: StandardizedBounds) -> (r: Result<
        NormalTruncated,
        Error,
    >)
        ensures
            r == spec_new(mean.bits, stddev.bits, lower.bits, upper.bits, std),
            (r == Err::<NormalTruncated, Error>(Error::InvalidStdDev)) <==> !f_gt(
                stddev.bits,
                B_ZERO,
            ),
            (r == Err::<NormalTruncated, Error>(Error::InvalidBounds)) <==> (f_gt(
                stddev.bits,
                B_ZERO,
            ) && !f_lt(lower.bits, upper.bits)),
            r is Ok <==> (f_gt(stddev.bits, B_ZERO) && f_lt(lower.bits, upper.bits)),
            r matches Ok(d) ==> d.wf(),
    {
        let zero = Fp::new(B_ZERO);
        let half = Fp::new(B_HALF);
        let neg_half = Fp::new(B_NEG_HALF);
        let one = Fp::new(B_ONE);
        let neg_one = Fp::new(B_NEG_ONE);
        let pos_inf = Fp::new(B_POS_INF);
        let neg_inf = Fp::new(B_NEG_INF);
        if !stddev.gt(zero) {
            return Err(Error::InvalidStdDev);
        }
        if !lower.lt(upper) {
            return Err(Error::InvalidBounds);
        }

        let rejection = Method::Rejection(NormalTruncatedRejection { mean, stddev, lower, upper });
        if upper.ieee_eq(pos_inf) {
            if std.lower.ge(half) {
                // One sided truncation, lower bound only
                Ok(NormalTruncated(Method::OneSided(
                    true,
                    NormalTruncatedOneSided { mu: mean, sigma: stddev, lower_bound: std.lower },
                )))
            } else {
                // Naive rejection sampling; also catches two infinite bounds
                Ok(NormalTruncated(rejection))
            }
        } else if lower.ieee_eq(neg_inf) {
            if std.upper.le(neg_half) {
                // One sided truncation, upper bound only: mirrored
                Ok(NormalTruncated(Method::OneSided(
                    false,
                    NormalTruncatedOneSided {
                        mu: mean.neg(),
                        sigma: stddev,
                        lower_bound: std.upper.neg(),
                    },
                )))
            } else {
                Ok(NormalTruncated(rejection))
            }
        } else {
            if std.width.ge(one) && std.lower.le(one) && std.upper.ge(neg_one) {
                Ok(NormalTruncated(rejection))
            } else {
                Ok(NormalTruncated(Method::TwoSided(NormalTruncatedTwoSided {
                    mu: mean,
                    sigma: stddev,
                    standard_lower: std.lower,
                    standard_upper: std.upper,
                })))
            }
        }
    }
}

impl NormalTruncatedRejection {
    /// Whether the naive-rejection loop keeps a drawn sample: exactly when
    /// it lies in `[lower, upper]`.
    pub open spec fn accepts(self, sample: u64) -> bool {
        f_ge(sample, self.lower.bits) && f_le(sample, self.upper.bits)
    }

    /// The acceptance decision of one naive-rejection iteration.
    pub fn accept(&self, sample: Fp) -> (r: bool)
        ensures
            r == self.accepts(sample.bits),
    {
        sample.ge(self.lower) && sample.le(self.upper)
    }
}

/// The acceptance decision shared by the one-sided and two-sided loops: the
/// uniform draw `u` against the acceptance probability `rho` the sampler
/// computed for its proposal (`exp(−(z − alpha_star)²/2)` one-sided, the
/// [`Envelope`] expression two-sided). A NaN `rho` accepts nothing.
pub fn proposal_accept(u: Fp, rho: Fp) -> (r: bool)
    ensures
        r == f_le(u.bits, rho.bits),
{
    u.le(rho)
}

/// The acceptance envelope of the two-sided method: the tightest valid
/// bound on the standard normal density over the interval.
#[derive(Clone, Copy, Debug, PartialEq, Eq, Structural)]
pub enum Envelope {
    /// The interval straddles zero: accept with `exp(−z²/2)`.
    Straddling,
    /// The interval is entirely negative: accept with
    /// `exp((standard_upper² − z²)/2)`.
    AllNegative,
    /// The interval is entirely positive: accept with
    /// `exp((standard_lower² − z²)/2)`.
    AllPositive,
}

impl NormalTruncatedTwoSided {
    /// Which acceptance envelope the two-sided loop normalizes against,
    /// decided from where the standardized interval sits relative to zero.
    pub fn envelope(&self) -> (r: Envelope)
        ensures
            (r == Envelope::Straddling) <==> (f_le(self.standard_lower.bits, B_ZERO) && f_ge(
                self.standard_upper.bits,
                B_ZERO,
            )),
            (r == Envelope::AllNegative) <==> (!(f_le(self.standard_lower.bits, B_ZERO) && f_ge(
                self.standard_upper.bits,
                B_ZERO,
            )) && f_lt(self.standard_upper.bits, B_ZERO)),
            (r == Envelope::AllPositive) <==> (!(f_le(self.standard_lower.bits, B_ZERO) && f_ge(
                self.standard_upper.bits,
                B_ZERO,
            )) && !f_lt(self.standard_upper.bits, B_ZERO)),
    {
        let zero = Fp::new(B_ZERO);
        if self.standard_lower.le(zero) && self.standard_upper.ge(zero) {
            Envelope::Straddling
        } else if self.standard_upper.lt(zero) {
            Envelope::AllNegative
        } else {
            Envelope::AllPositive
        }
    }
}

/// Support boundedness of the naive-rejection method: a draw its acceptance
/// test keeps lies in the closed truncation interval, so every sample the
/// loop returns does.
pub proof fn lemma_rejection_sample_in_bounds(d: NormalTruncatedRejection, sample: u64)
    requires
        d.accepts(sample),
    ensures
        f_le(d.lower.bits, sample),
        f_le(sample, d.upper.bits),
{
}

/// Construction is deterministic: two results obtained from identical
/// parameters and identical standardized bounds are the same value.
pub proof fn lemma_construction_deterministic(
    a: Result<NormalTruncated, Error>,
    b: Result<NormalTruncated, Error>,
    mean: Fp,
    stddev: Fp,
    lower: Fp,
    upper: Fp,
    std: StandardizedBounds,
)
    requires
        a == spec_new(mean.bits, stddev.bits, lower.bits, upper.bits, std),
        b == spec_new(mean.bits, stddev.bits, lower.bits, upper.bits, std),
    ensures
        a == b,
{
}

} // verus!

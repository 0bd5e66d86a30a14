//! The Zeta distribution.
//!
//! The zeta law with exponent `a > 1` is discrete-valued; samples are the
//! integers `x >= 1` with probability proportional to `x^(-a)`, carried in
//! floating point. Sampling is a two-uniform rejection loop: from draws `u`
//! on `(0, 1]` and `v` on `[0, 1)` the sampler computes the candidate
//! `x = floor(u^(−1/(a−1)))`, discards it when it fell below one, and
//! otherwise accepts it when `v·x·(t−1)/(b−1) <= t/b`, where
//! `t = (1 + 1/x)^(a−1)` and `b = 2^(a−1)`. Each of those quantities is
//! computed by the hosting sampler; the decision itself is [`zeta_step`].

use vstd::prelude::*;

use crate::fbits::{Fp, f_lt, f_le, f_ge, f_gt, is_nan_bits, B_ONE};

verus! {

/// Error type returned from [`Zeta::new`].
#[derive(Clone, Copy, Debug, PartialEq, Eq, Structural)]
pub enum Error {
    /// `a <= 1` or `nan`.
    ATooSmall,
}

impl Error {
    /// The description of the failure.
    pub fn message(&self) -> (r: &'static str)
        ensures
            r@ == "a <= 0 or is NaN in Zeta distribution"@,
    {
        "a <= 0 or is NaN in Zeta distribution"
    }
}

/// The Zeta distribution with exponent `a`, validated.
///
/// The sampler derives the constants it loops with, `a − 1` and
/// `b = 2^(a−1)`, from the stored exponent when it starts drawing.
#[derive(Clone, Copy, Debug, PartialEq, Eq, Structural)]
pub struct Zeta {
    /// The validated exponent: above one.
    pub a: Fp,
}

/// What [`Zeta::new`] returns, as a function of the parameter pattern.
pub open spec fn spec_new(a: u64) -> Result<Zeta, Error> {
    if !f_gt(a, B_ONE) {
        Err(Error::ATooSmall)
    } else {
        Ok(Zeta { a: Fp { bits: a } })
    }
}

impl Zeta {
    /// The invariant of a constructed object: the exponent is above one.
    pub open spec fn wf(self) -> bool {
        f_gt(self.a.bits, B_ONE)
    }

    /// Construct a new `Zeta` distribution with given `a` parameter.
    ///
    /// An exponent that is not above one (a NaN fails the check) is
    /// rejected as [`Error::ATooSmall`]; every other exponent is accepted.
    pub fn new(a: Fp) -> (r: Result<Zeta, Error>)
        ensures
            r == spec_new(a.bits),
            (r == Err::<Zeta, Error>(Error::ATooSmall)) <==> !f_gt(a.bits, B_ONE),
            r is Ok <==> f_gt(a.bits, B_ONE),
            r matches Ok(z) ==> z.wf(),
    {
        let one = Fp::new(B_ONE);
        if !a.gt(one) {
            return Err(Error::ATooSmall);
        }
        Ok(Zeta { a })
    }
}

/// The outcome of one iteration of the zeta rejection loop.
#[derive(Clone, Copy, Debug, PartialEq, Eq, Structural)]
pub enum ZetaStep {
    /// The candidate fell below one: draw again.
    BelowOne,
    /// The candidate `x` is accepted and returned as the sample.
    Accept,
    /// The acceptance test failed: draw again.
    Reject,
}

/// The accept/reject decision of one zeta iteration, taken on the
/// quantities the sampler computed from its uniform draws `u` and `v`: the
/// candidate `x = floor(u^(−1/(a−1)))`, the ratio `v·x·(t−1)/(b−1)`, and
/// the cap `t/b`, where `t = (1 + 1/x)^(a−1)`.
///
/// A candidate below one is discarded before the acceptance test;
/// otherwise it is accepted exactly when the ratio does not exceed the cap
/// (a NaN ratio or cap accepts nothing).
pub fn zeta_step(x: Fp, ratio: Fp, cap: Fp) -> (r: ZetaStep)
    ensures
        (r == ZetaStep::BelowOne) <==> f_lt(x.bits, B_ONE),
        (r == ZetaStep::Accept) <==> (!f_lt(x.bits, B_ONE) && f_le(ratio.bits, cap.bits)),
        (r == ZetaStep::Reject) <==> (!f_lt(x.bits, B_ONE) && !f_le(ratio.bits, cap.bits)),
{
    let one = Fp::new(B_ONE);
    if x.lt(one) {
        ZetaStep::BelowOne
    } else if ratio.le(cap) {
        ZetaStep::Accept
    } else {
        ZetaStep::Reject
    }
}

/// Support boundedness: a candidate the loop accepts, being a number, is at
/// least one — anything below one was discarded before the acceptance
/// test. (That the returned value is integral is the sampler's `floor`.)
pub proof fn lemma_accepted_sample_at_least_one(x: u64, ratio: u64, cap: u64)
    requires
        !is_nan_bits(x),
        !f_lt(x, B_ONE),
        f_le(ratio, cap),
    ensures
        f_ge(x, B_ONE),
{
}

/// Construction is deterministic: two results obtained from an identical
/// exponent are the same value.
pub proof fn lemma_construction_deterministic(
    a: Result<Zeta, Error>,
    b: Result<Zeta, Error>,
    exponent: Fp,
)
    requires
        a == spec_new(exponent.bits),
        b == spec_new(exponent.bits),
    ensures
        a == b,
{
}

} // verus!

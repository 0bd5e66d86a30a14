//! The Beta distribution `Beta(alpha, beta)`.
//!
//! A sample is the ratio `x/(x + y)` of two independent Gamma draws,
//! `x ~ Gamma(alpha, 1)` and `y ~ Gamma(beta, 1)`; all rejection work is
//! delegated to the two Gamma engines, and the combination adds none of
//! its own. Construction validates the two shape parameters by
//! constructing the two Gamma objects.

use vstd::prelude::*;

use crate::fbits::{Fp, f_gt, B_ZERO, B_ONE};
use crate::gamma;
use crate::gamma::Gamma;

verus! {

/// Error type returned from [`Beta::new`].
#[derive(Clone, Copy, Debug, PartialEq, Eq, Structural)]
pub enum Error {
    /// `alpha <= 0` or `nan`.
    AlphaTooSmall,
    /// `beta <= 0` or `nan`.
    BetaTooSmall,
}

/// The Beta distribution `Beta(alpha, beta)`, validated, holding its two
/// unit-scale Gamma components.
#[derive(Clone, Copy, Debug, PartialEq, Eq, Structural)]
pub struct Beta {
    /// The `Gamma(alpha, 1)` component the numerator is drawn from.
    pub gamma_a: Gamma,
    /// The `Gamma(beta, 1)` component the second draw comes from.
    pub gamma_b: Gamma,
}

/// What [`Beta::new`] returns, as a function of the parameter patterns.
pub open spec fn spec_new(alpha: u64, beta: u64) -> Result<Beta, Error> {
    match gamma::spec_new(alpha, B_ONE) {
        Err(_) => Err(Error::AlphaTooSmall),
        Ok(ga) => match gamma::spec_new(beta, B_ONE) {
            Err(_) => Err(Error::BetaTooSmall),
            Ok(gb) => Ok(Beta { gamma_a: ga, gamma_b: gb }),
        },
    }
}

impl Beta {
    /// The invariant of a constructed object: both components are
    /// well-formed.
    pub open spec fn wf(self) -> bool {
        self.gamma_a.wf() && self.gamma_b.wf()
    }

    /// Construct an object representing the `Beta(alpha, beta)`
    /// distribution.
    ///
    /// An `alpha` that is not positive (a NaN fails the check) is rejected
    /// as [`Error::AlphaTooSmall`], then a `beta` that is not positive as
    /// [`Error::BetaTooSmall`]; every other pair is accepted, as the two
    /// unit-scale Gamma components.
    pub fn new(alpha: Fp, beta: Fp) -> (r: Result<Beta, Error>)
        ensures
            r == spec_new(alpha.bits, beta.bits),
            (r == Err::<Beta, Error>(Error::AlphaTooSmall)) <==> !f_gt(alpha.bits, B_ZERO),
            (r == Err::<Beta, Error>(Error::BetaTooSmall)) <==> (f_gt(alpha.bits, B_ZERO)
                && !f_gt(beta.bits, B_ZERO)),
            r is Ok <==> (f_gt(alpha.bits, B_ZERO) && f_gt(beta.bits, B_ZERO)),
            r matches Ok(d) ==> d.wf(),
    {
        let one = Fp::new(B_ONE);
        let gamma_a = match Gamma::new(alpha, one) {
            Ok(g) => g,
            Err(_) => { return Err(Error::AlphaTooSmall); },
        };
        let gamma_b = match Gamma::new(beta, one) {
            Ok(g) => g,
            Err(_) => { return Err(Error::BetaTooSmall); },
        };
        Ok(Beta { gamma_a, gamma_b })
    }
}

/// Construction is deterministic: two results obtained from identical
/// parameters are the same value.
pub proof fn lemma_construction_deterministic(
    a: Result<Beta, Error>,
    b: Result<Beta, Error>,
    alpha: Fp,
    beta: Fp,
)
    requires
        a == spec_new(alpha.bits, beta.bits),
        b == spec_new(alpha.bits, beta.bits),
    ensures
        a == b,
{
}

} // verus!

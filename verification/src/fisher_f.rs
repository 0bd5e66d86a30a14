//! The Fisher-F distribution `FisherF(m, n)`.
//!
//! A sample is `(x/m)/(y/n)` for independent draws `x ~ ChiSquared(m)` and
//! `y ~ ChiSquared(n)`, computed as `x/y · (n/m)` so that a division is
//! replaced by a multiplication with the precomputed ratio; the sampler
//! derives `n/m` from the stored parameters. Construction validates both
//! degrees of freedom and builds the two Chi-Squared components.

use vstd::prelude::*;

use crate::chi_squared;
use crate::chi_squared::ChiSquared;
use crate::fbits::{Fp, f_gt, f_eq, halved, B_ZERO, B_ONE};

verus! {

/// Error type returned from [`FisherF::new`].
#[derive(Clone, Copy, Debug, PartialEq, Eq, Structural)]
pub enum Error {
    /// `m <= 0` or `nan`.
    MTooSmall,
    /// `n <= 0` or `nan`.
    NTooSmall,
}

/// The Fisher-F distribution `FisherF(m, n)`, validated, holding its two
/// Chi-Squared components.
#[derive(Clone, Copy, Debug, PartialEq, Eq, Structural)]
pub struct FisherF {
    /// The `ChiSquared(m)` component the numerator is drawn from.
    pub sampler_m: ChiSquared,
    /// The `ChiSquared(n)` component the denominator is drawn from.
    pub sampler_n: ChiSquared,
    /// The numerator degrees of freedom `m`, kept for the ratio `n/m`.
    pub m: Fp,
    /// The denominator degrees of freedom `n`, kept for the ratio `n/m`.
    pub n: Fp,
}

/// Whether a degree-of-freedom pattern admits the Chi-Squared construction:
/// positive, and not in the corner where its half rounds to zero.
pub open spec fn admissible_dof(k: u64) -> bool {
    f_gt(k, B_ZERO) && (f_eq(k, B_ONE) || f_gt(halved(k), B_ZERO))
}

/// What [`FisherF::new`] returns, as a function of the parameter patterns.
pub open spec fn spec_new(m: u64, n: u64) -> Result<FisherF, Error> {
    if !admissible_dof(m) {
        Err(Error::MTooSmall)
    } else if !admissible_dof(n) {
        Err(Error::NTooSmall)
    } else {
        match (chi_squared::spec_new(m), chi_squared::spec_new(n)) {
            (Ok(cm), Ok(cn)) => Ok(FisherF {
                sampler_m: cm,
                sampler_n: cn,
                m: Fp { bits: m },
                n: Fp { bits: n },
            }),
            _ => Err(Error::MTooSmall),
        }
    }
}

impl FisherF {
    /// The invariant of a constructed object: both components are
    /// well-formed.
    pub open spec fn wf(self) -> bool {
        self.sampler_m.wf() && self.sampler_n.wf()
    }

    /// Construct an object representing the `FisherF(m, n)` distribution.
    ///
    /// An `m` that does not admit its Chi-Squared construction — not
    /// positive, a NaN, or so small that its half rounds to zero — is
    /// rejected as [`Error::MTooSmall`], then an `n` of the same kind as
    /// [`Error::NTooSmall`]; every other pair is accepted.
    pub fn new(m: Fp, n: Fp) -> (r: Result<FisherF, Error>)
        ensures
            r == spec_new(m.bits, n.bits),
            (r == Err::<FisherF, Error>(Error::MTooSmall)) <==> !admissible_dof(m.bits),
            (r == Err::<FisherF, Error>(Error::NTooSmall)) <==> (admissible_dof(m.bits)
                && !admissible_dof(n.bits)),
            r is Ok <==> (admissible_dof(m.bits) && admissible_dof(n.bits)),
            r matches Ok(d) ==> d.wf(),
    {
        let zero = Fp::new(B_ZERO);
        let sampler_m = if m.gt(zero) {
            match ChiSquared::new(m) {
                Ok(c) => c,
                Err(_) => { return Err(Error::MTooSmall); },
            }
        } else {
            return Err(Error::MTooSmall);
        };
        let sampler_n = if n.gt(zero) {
            match ChiSquared::new(n) {
                Ok(c) => c,
                Err(_) => { return Err(Error::NTooSmall); },
            }
        } else {
            return Err(Error::NTooSmall);
        };
        Ok(FisherF { sampler_m, sampler_n, m, n })
    }
}

/// Construction is deterministic: two results obtained from identical
/// parameters are the same value.
pub proof fn lemma_construction_deterministic(
    a: Result<FisherF, Error>,
    b: Result<FisherF, Error>,
    m: Fp,
    n: Fp,
)
    requires
        a == spec_new(m.bits, n.bits),
        b == spec_new(m.bits, n.bits),
    ensures
        a == b,
{
}

} // verus!

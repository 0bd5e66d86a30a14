//! The Chi-Squared distribution `ChiSquared(k)`.
//!
//! The Chi-Squared law with `k` degrees of freedom is the Gamma law with
//! shape `k/2` and scale `2`; construction requires `k/2 > 0`. At exactly
//! one degree of freedom the sampler instead draws one standard normal and
//! squares it — the two laws coincide exactly, and the closed form is
//! faster than the small-shape Gamma path. The halving of `k` is performed
//! here, bit-exactly (see [`crate::fbits::halved`]).

use vstd::prelude::*;

use crate::fbits::{Fp, f_gt, f_eq, halved, B_ZERO, B_ONE, B_TWO};
use crate::gamma;
use crate::gamma::Gamma;

verus! {

/// Error type returned from [`ChiSquared::new`].
#[derive(Clone, Copy, Debug, PartialEq, Eq, Structural)]
pub enum Error {
    /// `0.5 * k <= 0` or `nan`.
    DoFTooSmall,
}

/// The algorithm variant selected at construction.
#[derive(Clone, Copy, Debug, PartialEq, Eq, Structural)]
pub enum ChiSquaredRepr {
    /// At one degree of freedom the sample is one squared standard normal:
    /// exactly the same law, without the small-shape Gamma machinery.
    DoFExactlyOne,
    /// Any other degree of freedom delegates to `Gamma(k/2, 2)`.
    DoFAnythingElse(Gamma),
}

/// The Chi-Squared distribution `ChiSquared(k)`, validated and with its
/// algorithm variant selected.
#[derive(Clone, Copy, Debug, PartialEq, Eq, Structural)]
pub struct ChiSquared {
    /// The selected algorithm variant.
    pub repr: ChiSquaredRepr,
}

/// What [`ChiSquared::new`] returns, as a function of the parameter
/// pattern.
pub open spec fn spec_new(k: u64) -> Result<ChiSquared, Error> {
    if f_eq(k, B_ONE) {
        Ok(ChiSquared { repr: ChiSquaredRepr::DoFExactlyOne })
    } else {
        match gamma::spec_new(halved(k), B_TWO) {
            Ok(g) => Ok(ChiSquared { repr: ChiSquaredRepr::DoFAnythingElse(g) }),
            Err(_) => Err(Error::DoFTooSmall),
        }
    }
}

impl ChiSquared {
    /// The invariant of a constructed object: a delegating variant holds a
    /// well-formed Gamma.
    pub open spec fn wf(self) -> bool {
        match self.repr {
            ChiSquaredRepr::DoFExactlyOne => true,
            ChiSquaredRepr::DoFAnythingElse(g) => g.wf(),
        }
    }

    /// Construct an object representing the `ChiSquared(k)` distribution.
    ///
    /// One degree of freedom selects the squared-normal closed form; any
    /// other `k` whose half is positive delegates to `Gamma(k/2, 2)`, and
    /// the rest (including a NaN) are rejected as [`Error::DoFTooSmall`].
    pub fn new(k: Fp) -> (r: Result<ChiSquared, Error>)
        ensures
            r == spec_new(k.bits),
            r is Ok <==> (f_eq(k.bits, B_ONE) || f_gt(halved(k.bits), B_ZERO)),
            (r == Err::<ChiSquared, Error>(Error::DoFTooSmall)) <==> (!f_eq(k.bits, B_ONE)
                && !f_gt(halved(k.bits), B_ZERO)),
            r matches Ok(d) ==> d.wf(),
    {
        let one = Fp::new(B_ONE);
        let two = Fp::new(B_TWO);
        if k.ieee_eq(one) {
            Ok(ChiSquared { repr: ChiSquaredRepr::DoFExactlyOne })
        } else {
            match Gamma::new(k.halve(), two) {
                Ok(g) => Ok(ChiSquared { repr: ChiSquaredRepr::DoFAnythingElse(g) }),
                Err(_) => Err(Error::DoFTooSmall),
            }
        }
    }
}

/// At one degree of freedom the constructed object is exactly the
/// squared-standard-normal variant: the Chi-Squared law with `k == 1`
/// matches the distribution of a squared standard normal.
pub proof fn lemma_one_degree_squares_a_normal(k: Fp)
    requires
        f_eq(k.bits, B_ONE),
    ensures
        spec_new(k.bits) == Ok::<ChiSquared, Error>(
            ChiSquared { repr: ChiSquaredRepr::DoFExactlyOne },
        ),
{
}

/// Construction is deterministic: two results obtained from an identical
/// degree of freedom are the same value.
pub proof fn lemma_construction_deterministic(
    a: Result<ChiSquared, Error>,
    b: Result<ChiSquared, Error>,
    k: Fp,
)
    requires
        a == spec_new(k.bits),
        b == spec_new(k.bits),
    ensures
        a == b,
{
}

} // verus!

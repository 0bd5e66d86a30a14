//! The Student-t distribution `StudentT(n)`.
//!
//! A sample is `normal · sqrt(n / chi)` for a standard normal draw and an
//! independent `ChiSquared(n)` draw `chi`; the rejection work is entirely
//! the Chi-Squared component's. Construction succeeds exactly when the
//! Chi-Squared construction for `n` does, and reports its error.

use vstd::prelude::*;

use crate::chi_squared;
use crate::chi_squared::ChiSquared;
use crate::fbits::{Fp, f_gt, f_eq, halved, B_ZERO, B_ONE};

verus! {

/// The Student-t distribution `StudentT(n)`, validated, holding its
/// Chi-Squared component.
#[derive(Clone, Copy, Debug, PartialEq, Eq, Structural)]
pub struct StudentT {
    /// The `ChiSquared(n)` component the divisor is drawn from.
    pub chi: ChiSquared,
    /// The degrees of freedom `n`, kept for the `sqrt(n / chi)` factor.
    pub dof: Fp,
}

/// What [`StudentT::new`] returns, as a function of the parameter pattern.
pub open spec fn spec_new(n: u64) -> Result<StudentT, chi_squared::Error> {
    match chi_squared::spec_new(n) {
        Ok(c) => Ok(StudentT { chi: c, dof: Fp { bits: n } }),
        Err(e) => Err(e),
    }
}

impl StudentT {
    /// The invariant of a constructed object: the component is well-formed.
    pub open spec fn wf(self) -> bool {
        self.chi.wf()
    }

    /// Construct an object representing the `StudentT(n)` distribution.
    ///
    /// Succeeds exactly when the `ChiSquared(n)` construction does, and
    /// otherwise reports that construction's error.
    pub fn new(n: Fp) -> (r: Result<StudentT, chi_squared::Error>)
        ensures
            r == spec_new(n.bits),
            r is Ok <==> (f_eq(n.bits, B_ONE) || f_gt(halved(n.bits), B_ZERO)),
            r matches Ok(d) ==> d.wf(),
    {
        match ChiSquared::new(n) {
            Ok(c) => Ok(StudentT { chi: c, dof: n }),
            Err(e) => Err(e),
        }
    }
}

/// Construction is deterministic: two results obtained from an identical
/// degree of freedom are the same value.
pub proof fn lemma_construction_deterministic(
    a: Result<StudentT, chi_squared::Error>,
    b: Result<StudentT, chi_squared::Error>,
    n: Fp,
)
    requires
        a == spec_new(n.bits),
        b == spec_new(n.bits),
    ensures
        a == b,
{
}

} // verus!

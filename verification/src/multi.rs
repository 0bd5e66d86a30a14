//! Multi-dimensional distributions.
//!
//! The trait [`MultiDistribution`] is the abstraction for distributions
//! whose samples are vector-valued (such as a Dirichlet law built over the
//! scalar Gamma engine): a sample is a buffer of `sample_len()` scalars,
//! written by the sampler holding the randomness source.
//! [`ConstMultiDistribution`] is an extension for distributions whose
//! dimension is a constant of the type.
//!
//! The scalar core of this crate is a building block consumed by such
//! distributions; none is implemented here. The buffer-writing operation
//! itself borrows a randomness source, so it lives with the implementing
//! sampler, which asserts that the buffer it fills has exactly
//! `sample_len()` elements.

use vstd::prelude::*;

verus! {

/// A standard abstraction for distributions with multi-dimensional
/// results: a sample is a buffer of `sample_len()` scalars of type `T`.
pub trait MultiDistribution<T> {
    /// The length of a sample (dimension of the distribution).
    fn sample_len(&self) -> usize;
}

/// An extension of [`MultiDistribution`] for multi-dimensional
/// distributions of fixed dimension.
pub trait ConstMultiDistribution<T>: MultiDistribution<T> {
    /// Constant sample length (dimension of the distribution).
    const SAMPLE_LEN: usize;
}

} // verus!

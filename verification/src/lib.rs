//! Exact random-variate generators: construction-time validation, algorithm
//! selection, and rejection-loop acceptance decisions, verified.
//!
//! Each distribution family (Gamma and the distributions composed from it,
//! the truncated Normal, the Zeta law, the normal-inverse Gaussian) splits
//! its work in two:
//!
//! - Parameter validation and algorithm selection happen once, at
//!   construction, and every decision is made here, over IEEE 754 binary64
//!   bit patterns (see [`fbits`]), with a verified contract saying exactly
//!   which parameters are rejected with which error and which internal
//!   algorithm variant is selected for the rest.
//! - The floating-point arithmetic of a draw (transcendental functions and
//!   the uniform/normal primitive sources) is left to the embedding sampler,
//!   which feeds each computed quantity back into the verified accept/reject
//!   decision of the loop it is running.
//!
//! A constructed distribution object is immutable; it never fails after
//! construction, and sampling from it is driven entirely by the decision
//! functions exported here.

#![allow(unused_imports)]

pub mod fbits;

pub mod gamma;

pub mod chi_squared;
pub mod student_t;
pub mod fisher_f;
pub mod beta;

pub mod normal_truncated;

pub mod normal_inverse_gaussian;

pub mod zeta;

pub mod multi;


//! The error taxonomy shared by every fallible operation of the estimator.

use vstd::prelude::*;

verus! {

/// Unified error type for `blprs` operations.
///
/// Each variant names the first violated contract that a failing call
/// encountered; no call ever returns a partial result alongside one.
#[derive(Debug, Clone)]
pub enum BlpError {
    /// Provided arrays or matrices have incompatible dimensions.
    DimensionMismatch { context: String, expected: usize, found: usize },
    /// The supplied market ids are not grouped into contiguous blocks.
    NonContiguousMarket { market_id: String },
    /// A product share is missing or non-positive.
    NonPositiveShare { index: usize },
    /// The outside good share of a market is non-positive.
    NonPositiveOutsideShare { market_id: String },
    /// A normalization or weight vector is invalid.
    InvalidWeights,
    /// A linear algebra operation encountered a singular system.
    SingularMatrix { context: String },
    /// The contraction mapping failed to meet the tolerance in budget.
    ContractionDidNotConverge { iterations: usize },
    /// A numerical routine produced a non-finite value.
    NumericalError { context: String },
    /// A required component was not provided to a builder or solver.
    MissingComponent { component: String },
}

impl BlpError {
    /// Builds a [`BlpError::DimensionMismatch`] from its parts.
    pub fn dimension_mismatch(context: &str, expected: usize, found: usize) -> (r: Self)
        ensures
            r matches BlpError::DimensionMismatch { context: c, expected: e, found: f }
                && c@ == context@ && e == expected && f == found,
    {
        BlpError::DimensionMismatch { context: context.to_owned(), expected, found }
    }

    /// Builds a [`BlpError::SingularMatrix`] naming the factorization that failed.
    pub fn singular(context: &str) -> (r: Self)
        ensures
            r matches BlpError::SingularMatrix { context: c } && c@ == context@,
    {
        BlpError::SingularMatrix { context: context.to_owned() }
    }

    /// Builds a [`BlpError::MissingComponent`] for builders missing an input.
    pub fn missing_component(component: &str) -> (r: Self)
        ensures
            r matches BlpError::MissingComponent { component: c } && c@ == component@,
    {
        BlpError::MissingComponent { component: component.to_owned() }
    }
}

} // verus!

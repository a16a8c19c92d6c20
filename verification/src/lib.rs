//! Demand-side estimation for random-coefficients discrete-choice (BLP) models.
//!
//! This crate verifies the discrete backbone of a BLP estimator: grouping
//! products into contiguous market segments, validating the shapes that the
//! share predictor and the GMM estimator depend on, and driving the
//! fixed-point contraction's iteration budget. The floating-point linear
//! algebra that consumes these pieces lives outside the verified library.

pub mod data;
pub mod error;
pub mod formulation;
pub mod shapes;
pub mod solving;

pub use data::{MarketPartition, MarketSegment};
pub use error::BlpError;
pub use formulation::Formulation;
pub use solving::{Contraction, ContractionSummary};

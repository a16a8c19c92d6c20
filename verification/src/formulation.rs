//! Symbolic specification of model characteristics.
//!
//! A formulation stores the raw expression describing linear or nonlinear
//! characteristics (for example `"0 + prices + x1"`), so that builders and
//! configuration structures can carry user intent; evaluating expressions
//! against data is not part of this library.

use vstd::prelude::*;

verus! {

/// Represents a symbolic specification of linear or nonlinear characteristics.
#[derive(Debug, Clone, PartialEq, Eq)]
pub struct Formulation {
    expression: String,
}

impl Formulation {
    /// Creates a new formulation from an expression string.
    pub fn new(expression: String) -> (r: Self)
        ensures
            r.spec_expression() == expression@,
    {
        Formulation { expression }
    }

    /// The stored expression, as a character sequence.
    pub closed spec fn spec_expression(&self) -> Seq<char> {
        self.expression@
    }

    /// Returns the original expression string.
    pub fn expression(&self) -> (r: &str)
        ensures
            r@ == self.spec_expression(),
    {
        self.expression.as_str()
    }
}

} // verus!

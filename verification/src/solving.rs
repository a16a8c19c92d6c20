//! Iteration control for the BLP fixed-point contraction.
//!
//! The contraction inverts observed market shares into mean utilities by
//! repeatedly applying a log-share update until the largest damped update
//! falls below a tolerance. The update itself is numerical work done by the
//! caller; this module owns the part that can be pinned down exactly: how
//! many iterations run, when the budget is exhausted, and what outcome is
//! reported. The caller performs one share prediction per iteration and
//! reports back a single fact — whether the convergence gap fell below the
//! tolerance — and the driver decides what happens next.

use vstd::prelude::*;

use crate::error::BlpError;

verus! {

/// Diagnostics returned alongside the contracted mean utilities.
#[derive(Debug, Clone)]
pub struct ContractionSummary {
    /// Number of iterations performed.
    pub iterations: usize,
}

/// Drives the contraction's iteration budget and records its outcome.
///
/// The intended loop is: while [`should_continue`](Contraction::should_continue)
/// holds, evaluate one contraction step and report whether the step's maximum
/// damped update fell below the tolerance via
/// [`complete_iteration`](Contraction::complete_iteration); then read the
/// verdict off [`finish`](Contraction::finish).
#[derive(Debug, Clone)]
pub struct Contraction {
    max_iterations: usize,
    iterations: usize,
    converged: bool,
}

impl Contraction {
    /// The iteration budget this driver was created with.
    pub closed spec fn spec_budget(&self) -> int {
        self.max_iterations as int
    }

    /// How many iterations have completed so far.
    pub closed spec fn spec_iterations(&self) -> int {
        self.iterations as int
    }

    /// Whether the most recently completed iteration met the tolerance.
    pub closed spec fn spec_converged(&self) -> bool {
        self.converged
    }

    /// Every state reachable through this driver's methods satisfies this:
    /// the budget is never exceeded, and convergence can only be recorded by
    /// a completed iteration.
    pub open spec fn inv(&self) -> bool {
        &&& self.spec_iterations() <= self.spec_budget()
        &&& self.spec_converged() ==> self.spec_iterations() >= 1
    }

    /// Starts a contraction with the given iteration budget.
    pub fn new(max_iterations: usize) -> (r: Contraction)
        ensures
            r.spec_budget() == max_iterations,
            r.spec_iterations() == 0,
            !r.spec_converged(),
            r.inv(),
    {
        Contraction { max_iterations, iterations: 0, converged: false }
    }

    /// Number of iterations completed so far.
    pub fn iterations(&self) -> (r: usize)
        ensures
            r == self.spec_iterations(),
    {
        self.iterations
    }

    /// Whether another contraction step should run: the driver has neither
    /// converged nor exhausted its budget.
    pub fn should_continue(&self) -> (r: bool)
        ensures
            r == (!self.spec_converged() && self.spec_iterations() < self.spec_budget()),
    {
        !self.converged && self.iterations < self.max_iterations
    }

    /// Records the outcome of one contraction step: the iteration count grows
    /// by one and the step's gap test becomes the convergence verdict.
    pub fn complete_iteration(&mut self, gap_below_tolerance: bool)
        requires
            !old(self).spec_converged(),
            old(self).spec_iterations() < old(self).spec_budget(),
        ensures
            final(self).spec_iterations() == old(self).spec_iterations() + 1,
            final(self).spec_budget() == old(self).spec_budget(),
            final(self).spec_converged() == gap_below_tolerance,
            old(self).inv() ==> final(self).inv(),
    {
        self.iterations = self.iterations + 1;
        self.converged = gap_below_tolerance;
    }

    /// Reports the contraction's outcome: a summary when it converged, and a
    /// non-convergence error carrying the iteration count when it did not.
    pub fn finish(self) -> (r: Result<ContractionSummary, BlpError>)
        ensures
            self.spec_converged() ==> (r matches Ok(s) && s.iterations == self.spec_iterations()),
            !self.spec_converged() ==> (r matches Err(e)
                && e matches BlpError::ContractionDidNotConverge { iterations }
                && iterations == self.spec_iterations()),
    {
        if self.converged {
            Ok(ContractionSummary { iterations: self.iterations })
        } else {
            Err(BlpError::ContractionDidNotConverge { iterations: self.iterations })
        }
    }
}

/// A contraction given no iteration budget never converges and reports zero
/// iterations performed, whatever gaps its steps would have produced: with a
/// zero budget no step is ever admitted, so any reachable driver state still
/// holds the initial counts and [`Contraction::finish`] must report the
/// non-convergence error with zero iterations.
pub proof fn lemma_zero_budget_reports_zero_iterations(c: Contraction)
    requires
        c.inv(),
        c.spec_budget() == 0,
    ensures
        !c.spec_converged(),
        c.spec_iterations() == 0,
        !(!c.spec_converged() && c.spec_iterations() < c.spec_budget()),
{
}

/// A contraction whose first step already meets the tolerance converges after
/// exactly one iteration: from a fresh driver, completing one step with a
/// below-tolerance gap yields a converged state whose iteration count is one.
pub proof fn lemma_first_step_convergence(pre: Contraction, post: Contraction)
    requires
        pre.spec_iterations() == 0,
        !pre.spec_converged(),
        post.spec_budget() == pre.spec_budget(),
        post.spec_iterations() == pre.spec_iterations() + 1,
        post.spec_converged(),
    ensures
        post.spec_iterations() == 1,
{
}

} // verus!

use vstd::prelude::*;

verus! {

/// Number of Newton steps the internal-rate-of-return search may take.
pub const IRR_MAX_ITERATIONS: u32 = 100;

/// What one step of a Newton-style search observed.
#[derive(Clone, Copy, Debug, PartialEq, Eq, Structural)]
pub enum StepOutcome {
    /// The derivative was too close to zero to divide by; the iterate is
    /// nudged instead of stepped.
    FlatDerivative,
    /// The new iterate met the convergence test.
    Converged,
    /// The iterate moved but has not converged yet.
    Moved,
}

/// The abstract state of a search: its step limit, the steps taken so far,
/// and whether the last step converged.
pub struct BudgetView {
    pub limit: nat,
    pub taken: nat,
    pub converged: bool,
}

/// Bookkeeping of a bounded Newton-style search. The numeric iterate lives
/// with the caller; this type decides when the search goes on and whether
/// it found a root.
pub struct NewtonBudget {
    limit: u32,
    taken: u32,
    converged: bool,
}

impl View for NewtonBudget {
    type V = BudgetView;

    closed spec fn view(&self) -> BudgetView {
        BudgetView { limit: self.limit as nat, taken: self.taken as nat, converged: self.converged }
    }
}

impl NewtonBudget {
    /// Never more steps than the limit, and a converged search took a step.
    pub open spec fn wf(&self) -> bool {
        &&& self@.taken <= self@.limit
        &&& self@.converged ==> self@.taken >= 1
    }

    /// Whether another step is due: the limit is not reached and no step
    /// has converged.
    pub open spec fn running(&self) -> bool {
        self@.taken < self@.limit && !self@.converged
    }

    /// A fresh search allowed at most `limit` steps.
    pub fn new(limit: u32) -> (b: NewtonBudget)
        ensures
            b.wf(),
            b@ == (BudgetView { limit: limit as nat, taken: 0, converged: false }),
    {
        NewtonBudget { limit, taken: 0, converged: false }
    }

    /// Whether the caller should take another step.
    pub fn may_continue(&self) -> (r: bool)
        ensures
            r == self.running(),
    {
        self.taken < self.limit && !self.converged
    }

    /// Records one step and what it observed. Only a step that converged
    /// ends the search early; every step counts against the limit.
    pub fn record(&mut self, outcome: StepOutcome)
        requires
            old(self).wf(),
            old(self).running(),
        ensures
            final(self).wf(),
            final(self)@.limit == old(self)@.limit,
            final(self)@.taken == old(self)@.taken + 1,
            final(self)@.converged == (outcome == StepOutcome::Converged),
    {
        self.taken = self.taken + 1;
        self.converged = outcome == StepOutcome::Converged;
    }

    /// Whether the search found a root: its last step converged.
    pub fn converged(&self) -> (r: bool)
        ensures
            r == self@.converged,
    {
        self.converged
    }

    /// The number of steps taken so far.
    pub fn taken(&self) -> (r: u32)
        ensures
            r == self@.taken,
    {
        self.taken
    }

    /// The most steps the search may take.
    pub fn limit(&self) -> (r: u32)
        ensures
            r == self@.limit,
    {
        self.limit
    }
}

} // verus!

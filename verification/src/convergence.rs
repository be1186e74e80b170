//! The iteration budget of the rating update. The update finds a player's
//! new volatility by a bracketing search that narrows its bracket step by
//! step; the search may take a fixed number of steps and fails with a
//! `ConvergenceError` when it asks for one more.

use vstd::prelude::*;

verus! {

/// The search for the new volatility did not narrow its bracket within the
/// steps that it was given.
#[derive(Debug, Clone, Copy)]
pub struct ConvergenceError {
    _priv: (),
}

impl ConvergenceError {
    /// The error in words.
    pub fn to_string(&self) -> (message: String)
        ensures
            message@ == "failed to converge"@,
    {
        "failed to converge".to_owned()
    }
}

/// Counts the steps of one search against the most that it may take.
#[derive(Debug)]
pub struct IterationBudget {
    taken: u32,
    limit: u32,
}

impl IterationBudget {
    /// Steps taken so far.
    pub closed spec fn taken(self) -> nat {
        self.taken as nat
    }

    /// The most steps that the search may take.
    pub closed spec fn limit(self) -> nat {
        self.limit as nat
    }

    #[verifier::type_invariant]
    spec fn within_limit(self) -> bool {
        self.taken <= self.limit
    }

    /// A budget of `limit` steps, none of them taken.
    pub fn new(limit: u32) -> (budget: IterationBudget)
        ensures
            budget.taken() == 0,
            budget.limit() == limit,
    {
        IterationBudget { taken: 0, limit }
    }

    /// Takes one step. The step is counted while fewer than `limit` steps
    /// were taken; the step after the last one fails and is not counted.
    pub fn step(&mut self) -> (taken: Result<(), ConvergenceError>)
        ensures
            final(self).limit() == old(self).limit(),
            final(self).taken() <= final(self).limit(),
            match taken {
                Ok(_) => old(self).taken() < old(self).limit() && final(self).taken() == old(
                    self,
                ).taken() + 1,
                Err(_) => old(self).taken() == old(self).limit() && final(self).taken() == old(
                    self,
                ).taken(),
            },
    {
        proof {
            use_type_invariant(&*self);
        }
        if self.taken >= self.limit {
            Err(ConvergenceError { _priv: () })
        } else {
            *self = IterationBudget { taken: self.taken + 1, limit: self.limit };
            Ok(())
        }
    }

    /// Steps taken so far.
    pub fn iterations(&self) -> (taken: u32)
        ensures
            taken == self.taken(),
            taken <= self.limit(),
    {
        proof {
            use_type_invariant(self);
        }
        self.taken
    }
}

} // verus!

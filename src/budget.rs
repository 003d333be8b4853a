//! Splitting the total error budget among the sources of error.
use vstd::prelude::*;
use crate::error::EstimationError;
use crate::units::PROB_ONE;

verus! {

/// The shares of the total error budget, in units of 10^-18.
#[derive(Clone, Copy, Debug, PartialEq, Eq, Structural)]
pub struct ErrorBudget {
    pub logical: u64,
    pub tstates: u64,
    pub rotations: u64,
}

impl ErrorBudget {
    /// The sum of the three shares.
    pub open spec fn total(&self) -> int {
        self.logical + self.tstates + self.rotations
    }
}

/// How the total error budget is split.
#[derive(Clone, Copy, Debug, PartialEq, Eq, Structural)]
pub enum BudgetPolicy {
    /// A third to each share; what division leaves goes to rotations.
    Even,
    /// The caller's split, which must add up to the total.
    Explicit(ErrorBudget),
}

/// Whether a total error budget is a probability in (0, 1].
pub open spec fn valid_total(total: nat) -> bool {
    0 < total <= PROB_ONE
}

/// The even split of `total`.
pub open spec fn even_split(total: nat) -> ErrorBudget {
    ErrorBudget {
        logical: (total / 3) as u64,
        tstates: (total / 3) as u64,
        rotations: (total - 2 * (total / 3)) as u64,
    }
}

/// The budget that `allocate_budget` gives, or its error.
pub open spec fn allocation(total: nat, policy: BudgetPolicy) -> Result<ErrorBudget, EstimationError> {
    if !valid_total(total) {
        Err(EstimationError::InvalidBudget)
    } else {
        match policy {
            BudgetPolicy::Even => Ok(even_split(total)),
            BudgetPolicy::Explicit(b) => if b.total() == total {
                Ok(b)
            } else {
                Err(EstimationError::InvalidBudget)
            },
        }
    }
}

/// Splits `total` according to `policy`.
pub fn allocate_budget(total: u64, policy: BudgetPolicy) -> (r: Result<ErrorBudget, EstimationError>)
    ensures
        r == allocation(total as nat, policy),
        r is Ok ==> r->Ok_0.total() == total,
{
    if total == 0 || total > PROB_ONE {
        return Err(EstimationError::InvalidBudget);
    }
    match policy {
        BudgetPolicy::Even => {
            let third = total / 3;
            Ok(ErrorBudget { logical: third, tstates: third, rotations: total - 2 * third })
        },
        BudgetPolicy::Explicit(b) => {
            let sum: u128 = b.logical as u128 + b.tstates as u128 + b.rotations as u128;
            if sum == total as u128 {
                Ok(b)
            } else {
                Err(EstimationError::InvalidBudget)
            }
        },
    }
}

/// Every budget that the allocator hands out splits the total exactly.
pub proof fn lemma_allocation_sums_to_total(total: nat, policy: BudgetPolicy)
    requires
        allocation(total, policy) is Ok,
    ensures
        allocation(total, policy)->Ok_0.total() == total,
        valid_total(total),
{
}

} // verus!

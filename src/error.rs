//! The ways an estimation can fail.
use vstd::prelude::*;

verus! {

/// Why an estimation failed.
#[derive(Clone, Copy, Debug, PartialEq, Eq, Structural)]
pub enum EstimationError {
    /// The total error budget is not in (0, 1], or an explicit split does not
    /// add up to it, or a share that the program needs is zero.
    InvalidBudget,
    /// No code distance up to the scheme's maximum meets the logical budget.
    NoFeasibleCodeDistance,
    /// No distillation factory within the round limit meets the T-state budget.
    NoFeasibleTFactory,
    /// The logical counts are inconsistent.
    InvalidLogicalCounts,
    /// A preset name is unknown or a hardware model is malformed.
    ConfigurationError,
}

impl EstimationError {
    /// The estimation stage at which the error arises.
    pub fn stage(&self) -> (r: String)
        ensures
            r@ == self.stage_spec(),
    {
        match self {
            EstimationError::InvalidBudget => String::from_str("error budget"),
            EstimationError::NoFeasibleCodeDistance => String::from_str("logical layout"),
            EstimationError::NoFeasibleTFactory => String::from_str("T-factory"),
            EstimationError::InvalidLogicalCounts => String::from_str("logical counts"),
            EstimationError::ConfigurationError => String::from_str("configuration"),
        }
    }

    pub open spec fn stage_spec(&self) -> Seq<char> {
        match self {
            EstimationError::InvalidBudget => "error budget"@,
            EstimationError::NoFeasibleCodeDistance => "logical layout"@,
            EstimationError::NoFeasibleTFactory => "T-factory"@,
            EstimationError::InvalidLogicalCounts => "logical counts"@,
            EstimationError::ConfigurationError => "configuration"@,
        }
    }

    pub open spec fn message_spec(&self) -> Seq<char> {
        match self {
            EstimationError::InvalidBudget =>
                "the total error budget must be in (0, 1] and its split must add up to it"@,
            EstimationError::NoFeasibleCodeDistance =>
                "no code distance up to the maximum meets the logical error budget"@,
            EstimationError::NoFeasibleTFactory =>
                "no distillation factory within the round limit meets the T-state error budget"@,
            EstimationError::InvalidLogicalCounts => "the rotation depth exceeds the rotation count"@,
            EstimationError::ConfigurationError => "unknown preset name or malformed hardware model"@,
        }
    }

    /// A human-readable diagnostic.
    pub fn message(&self) -> (r: String)
        ensures
            r@ == self.message_spec(),
    {
        match self {
            EstimationError::InvalidBudget => String::from_str(
                "the total error budget must be in (0, 1] and its split must add up to it",
            ),
            EstimationError::NoFeasibleCodeDistance => String::from_str(
                "no code distance up to the maximum meets the logical error budget",
            ),
            EstimationError::NoFeasibleTFactory => String::from_str(
                "no distillation factory within the round limit meets the T-state error budget",
            ),
            EstimationError::InvalidLogicalCounts => String::from_str(
                "the rotation depth exceeds the rotation count",
            ),
            EstimationError::ConfigurationError => String::from_str(
                "unknown preset name or malformed hardware model",
            ),
        }
    }
}

} // verus!

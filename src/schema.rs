//! The query and mutation entry points of the estimation service.
use vstd::prelude::*;
use crate::budget::BudgetPolicy;
use crate::config::{default_estimation_config, is_qec_preset, is_qubit_preset, resolve_params};
use crate::counts::LogicalCounts;
use crate::error::EstimationError;
use crate::estimator::{estimate, estimate_outcome, estimation, lemma_estimation_ignores_names, Estimate, EstimationResult};
use crate::hardware::{
    has_qec_preset_values, has_qubit_preset_values, is_qec_preset_name, is_qubit_preset_name,
    Constraints, QecScheme, QubitParams,
};

verus! {

/// The total error budget of the service's example estimate: 0.01.
pub const EXAMPLE_ERROR_BUDGET: u64 = 10_000_000_000_000_000;

/// The distillation round limit of the service's example estimate.
pub const EXAMPLE_MAX_DISTILLATION_ROUNDS: u64 = 3;

/// The name of a qubit model.
#[derive(Debug)]
pub struct QubitParamsInput {
    pub name: String,
}

/// The name of an error correction scheme.
#[derive(Debug)]
pub struct QecSchemeInput {
    pub name: String,
}

/// The preset names of an estimation request.
#[derive(Debug)]
pub struct ParamsInput {
    pub qubit_params: QubitParamsInput,
    pub qec_scheme: QecSchemeInput,
}

/// An estimation request.
#[derive(Debug)]
pub struct EstimationInput {
    pub label: String,
    pub detail: String,
    pub params: ParamsInput,
}

/// The read side of the service.
pub struct Query;

/// The write side of the service.
pub struct Mutation;

/// The logical counts of the program that the service estimates.
pub open spec fn example_counts_spec() -> LogicalCounts {
    LogicalCounts {
        num_qubits: 10,
        t_count: 100,
        rotation_count: 100,
        rotation_depth: 100,
        ccz_count: 10,
        ccix_count: 5,
        measurement_count: 1000,
    }
}

/// The logical counts of the program that the service estimates.
pub fn example_counts() -> (c: LogicalCounts)
    ensures
        c == example_counts_spec(),
{
    LogicalCounts {
        num_qubits: 10,
        t_count: 100,
        rotation_count: 100,
        rotation_depth: 100,
        ccz_count: 10,
        ccix_count: 5,
        measurement_count: 1000,
    }
}

/// `r` is the example estimate under built-in qubit model `qn` and scheme `sn`.
pub open spec fn example_outcome(qn: Seq<char>, sn: Seq<char>, r: Result<EstimationResult, EstimationError>) -> bool {
    let k = Constraints { max_distillation_rounds: EXAMPLE_MAX_DISTILLATION_ROUNDS };
    match r {
        Ok(res) => {
            &&& is_qubit_preset(res.job_params.qubit_params, qn)
            &&& is_qec_preset(res.job_params.qec_scheme, sn)
            &&& estimate_outcome(
                example_counts_spec(),
                res.job_params.qubit_params,
                res.job_params.qec_scheme,
                k,
                EXAMPLE_ERROR_BUDGET,
                BudgetPolicy::Even,
                r,
            )
        },
        Err(e) => forall|q: QubitParams, s: QecScheme|
            has_qubit_preset_values(q, qn) && has_qec_preset_values(s, sn) ==> estimation(
                example_counts_spec(),
                q,
                s,
                k,
                EXAMPLE_ERROR_BUDGET as nat,
                BudgetPolicy::Even,
            ) == Err::<Estimate, EstimationError>(e),
    }
}

fn estimate_example(q: QubitParams, s: QecScheme) -> (r: Result<EstimationResult, EstimationError>)
    requires
        has_qubit_preset_values(q, q.name@),
        has_qec_preset_values(s, s.name@),
    ensures
        example_outcome(q.name@, s.name@, r),
{
    let ghost (gq, gs) = (q, s);
    let k = Constraints { max_distillation_rounds: EXAMPLE_MAX_DISTILLATION_ROUNDS };
    let r = estimate(example_counts(), q, s, k, EXAMPLE_ERROR_BUDGET);
    proof {
        if r is Err {
            assert forall|q2: QubitParams, s2: QecScheme|
                has_qubit_preset_values(q2, gq.name@) && has_qec_preset_values(s2, gs.name@) implies estimation(
                    example_counts_spec(),
                    q2,
                    s2,
                    k,
                    EXAMPLE_ERROR_BUDGET as nat,
                    BudgetPolicy::Even,
                ) == Err::<Estimate, EstimationError>(r->Err_0) by {
                lemma_estimation_ignores_names(
                    example_counts_spec(),
                    gq,
                    q2,
                    gs,
                    s2,
                    k,
                    EXAMPLE_ERROR_BUDGET as nat,
                    BudgetPolicy::Even,
                );
            }
        }
    }
    r
}

impl Query {
    /// The estimate of the example program under the default configuration.
    pub fn estimation_result() -> (r: Result<EstimationResult, EstimationError>)
        ensures
            example_outcome("qubit_maj_ns_e6"@, "surface_code"@, r),
    {
        let config = default_estimation_config();
        estimate_example(config.params.qubit_params, config.params.qec_scheme)
    }
}

impl Mutation {
    /// The estimate of the example program under the requested presets; an
    /// unknown preset name is a configuration error.
    pub fn create_estimation(estimation: EstimationInput) -> (r: Result<EstimationResult, EstimationError>)
        ensures
            if is_qubit_preset_name(estimation.params.qubit_params.name@)
                && is_qec_preset_name(estimation.params.qec_scheme.name@) {
                example_outcome(estimation.params.qubit_params.name@, estimation.params.qec_scheme.name@, r)
            } else {
                r == Err::<EstimationResult, EstimationError>(EstimationError::ConfigurationError)
            },
    {
        let params = match resolve_params(
            estimation.params.qubit_params.name.as_str(),
            estimation.params.qec_scheme.name.as_str(),
        ) {
            Ok(p) => p,
            Err(e) => return Err(e),
        };
        estimate_example(params.qubit_params, params.qec_scheme)
    }
}

} // verus!

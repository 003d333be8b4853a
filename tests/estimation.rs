use qcore::budget::{allocate_budget, BudgetPolicy, ErrorBudget};
use qcore::config::{default_estimation_config, resolve_params};
use qcore::counts::{ceil_sqrt_exec, log2_ceil_exec, LogicalCounts};
use qcore::error::EstimationError;
use qcore::estimator::{estimate, estimate_with_policy};
use qcore::factory::{plan_tfactory, DistillationUnit};
use qcore::hardware::{qec_scheme_preset, qubit_params_preset, Constraints, QecScheme, QubitParams};
use qcore::layout::{logical_error_rate_exec, plan_code_distance};
use qcore::schema::{
    EstimationInput, Mutation, ParamsInput, QecSchemeInput, Query, QubitParamsInput,
};
use qcore::report::{format_count, format_duration, format_percentage};
use qcore::units::{prob_mul_up, PROB_ONE};

const BUDGET_1E3: u64 = 1_000_000_000_000_000;

fn counts(num_qubits: u32, t_count: u32, rotation_count: u32, rotation_depth: u32) -> LogicalCounts {
    LogicalCounts {
        num_qubits,
        t_count,
        rotation_count,
        rotation_depth,
        ccz_count: 0,
        ccix_count: 0,
        measurement_count: 0,
    }
}

fn maj_e6() -> QubitParams {
    qubit_params_preset("qubit_maj_ns_e6").unwrap()
}

fn surface() -> QecScheme {
    qec_scheme_preset("surface_code").unwrap()
}

fn scenario_counts() -> LogicalCounts {
    LogicalCounts {
        num_qubits: 10,
        t_count: 100,
        rotation_count: 0,
        rotation_depth: 0,
        ccz_count: 0,
        ccix_count: 0,
        measurement_count: 50,
    }
}

#[test]
fn even_split_adds_up_to_total() {
    for total in [1u64, 2, 3, 10, BUDGET_1E3, 999_999_999_999_999_999, PROB_ONE] {
        let b = allocate_budget(total, BudgetPolicy::Even).unwrap();
        assert_eq!(b.logical as u128 + b.tstates as u128 + b.rotations as u128, total as u128);
    }
    let b = allocate_budget(BUDGET_1E3, BudgetPolicy::Even).unwrap();
    assert_eq!(b.logical, 333_333_333_333_333);
    assert_eq!(b.tstates, 333_333_333_333_333);
    assert_eq!(b.rotations, 333_333_333_333_334);
}

#[test]
fn explicit_split_must_add_up() {
    let ok = ErrorBudget { logical: 500, tstates: 300, rotations: 200 };
    assert_eq!(allocate_budget(1000, BudgetPolicy::Explicit(ok)), Ok(ok));
    let bad = ErrorBudget { logical: 500, tstates: 300, rotations: 201 };
    assert_eq!(allocate_budget(1000, BudgetPolicy::Explicit(bad)), Err(EstimationError::InvalidBudget));
}

#[test]
fn budget_out_of_range_is_rejected() {
    assert_eq!(allocate_budget(0, BudgetPolicy::Even), Err(EstimationError::InvalidBudget));
    assert_eq!(allocate_budget(PROB_ONE + 1, BudgetPolicy::Even), Err(EstimationError::InvalidBudget));
}

#[test]
fn total_budget_above_one_fails() {
    let r = estimate(scenario_counts(), maj_e6(), surface(), Constraints { max_distillation_rounds: 3 }, 1_500_000_000_000_000_000);
    assert_eq!(r.unwrap_err(), EstimationError::InvalidBudget);
}

#[test]
fn larger_budget_never_raises_distance() {
    let a = 30_000_000_000_000_000;
    let p = 1_000_000_000_000_000;
    let pth = 10_000_000_000_000_000;
    let mut last = u64::MAX;
    for required in [1_000u64, 100_000, 10_000_000, 1_000_000_000, 100_000_000_000, 10_000_000_000_000] {
        let d = plan_code_distance(a, p, pth, required, 51).unwrap();
        assert!(d <= last);
        assert!(d >= 3 && d % 2 == 1);
        last = d;
    }
}

#[test]
fn lower_cap_keeps_distance_or_fails() {
    let a = 30_000_000_000_000_000;
    let p = 1_000_000_000_000_000;
    let pth = 10_000_000_000_000_000;
    let d = plan_code_distance(a, p, pth, 1_000_000, 51).unwrap();
    assert_eq!(d, 21);
    assert_eq!(plan_code_distance(a, p, pth, 1_000_000, 21), Ok(21));
    assert_eq!(plan_code_distance(a, p, pth, 1_000_000, 19), Err(EstimationError::NoFeasibleCodeDistance));
}

#[test]
fn logical_error_rate_formula() {
    // 0.03 * (1e-6 / 1e-2)^2 = 3e-10
    assert_eq!(logical_error_rate_exec(30_000_000_000_000_000, 1_000_000_000_000, 10_000_000_000_000_000, 3), 300_000_000);
    // 0.03 * (1e-3 / 1e-2)^3 = 3e-5
    assert_eq!(logical_error_rate_exec(30_000_000_000_000_000, 1_000_000_000_000_000, 10_000_000_000_000_000, 5), 30_000_000_000_000);
}

#[test]
fn factory_meets_requested_error() {
    let q = maj_e6();
    for required in [1u64, 1_000, 1_500_625, 10_000_000, 3_333_333_333_333, 10_000_000_000_000_000] {
        match plan_tfactory(&q, required, 3) {
            Ok(f) => {
                assert!(f.output_error_rate <= required);
                assert!(f.rounds <= 3);
            }
            Err(e) => assert_eq!(e, EstimationError::NoFeasibleTFactory),
        }
    }
    let f = plan_tfactory(&q, 3_333_333_333_333, 3).unwrap();
    assert_eq!(f.rounds, 2);
    assert_eq!(f.unit, DistillationUnit::SpaceEfficient);
    assert_eq!(f.output_error_rate, 1_500_625);
    assert_eq!(f.physical_qubits, 180);
    assert_eq!(f.duration, 18_400);
}

#[test]
fn raw_t_gates_when_good_enough() {
    let q = maj_e6();
    let f = plan_tfactory(&q, 10_000_000_000_000_000, 0).unwrap();
    assert_eq!(f.rounds, 0);
    assert_eq!(f.physical_qubits, 1);
    assert_eq!(f.output_error_rate, 10_000_000_000_000_000);
}

#[test]
fn estimate_is_deterministic() {
    let c = LogicalCounts {
        num_qubits: 12,
        t_count: 40,
        rotation_count: 30,
        rotation_depth: 10,
        ccz_count: 2,
        ccix_count: 1,
        measurement_count: 7,
    };
    let k = Constraints { max_distillation_rounds: 3 };
    let a = estimate(c, maj_e6(), surface(), k, BUDGET_1E3).unwrap();
    let b = estimate(c, maj_e6(), surface(), k, BUDGET_1E3).unwrap();
    assert_eq!(format!("{:?}", a), format!("{:?}", b));
    assert_eq!(a.physical_counts, b.physical_counts);
}

#[test]
fn no_tstates_and_no_rotations_leave_optionals_absent() {
    let c = counts(1, 0, 0, 0);
    let r = estimate(c, maj_e6(), surface(), Constraints { max_distillation_rounds: 3 }, BUDGET_1E3).unwrap();
    assert_eq!(r.physical_counts.breakdown.required_logical_tstate_error_rate, None);
    assert_eq!(r.physical_counts.breakdown.num_ts_per_rotation, None);
    assert_eq!(r.physical_counts.breakdown.num_tfactories, 0);
    assert!(r.tfactory.is_none());
}

#[test]
fn majorana_surface_code_scenario() {
    let r = estimate(scenario_counts(), maj_e6(), surface(), Constraints { max_distillation_rounds: 3 }, BUDGET_1E3).unwrap();
    assert!(r.logical_qubit.code_distance >= 3);
    assert!(r.physical_counts.physical_qubits > 0);
    assert!(r.physical_counts.breakdown.num_tfactories >= 1);
    assert_eq!(r.status(), "Success");
    let b = r.physical_counts.breakdown;
    assert_eq!(r.logical_qubit.code_distance, 3);
    assert_eq!(r.logical_qubit.physical_qubits, 18);
    assert_eq!(r.logical_qubit.logical_cycle_time, 1_800);
    assert_eq!(r.logical_qubit.logical_error_rate, 300_000_000);
    assert_eq!(b.algorithmic_logical_qubits, 30);
    assert_eq!(b.algorithmic_logical_depth, 150);
    assert_eq!(b.num_tstates, 100);
    assert_eq!(b.required_logical_qubit_error_rate, 74_074_074_074);
    assert_eq!(b.required_logical_tstate_error_rate, Some(3_333_333_333_333));
    assert_eq!(b.num_tfactories, 8);
    assert_eq!(b.num_tfactory_runs, 13);
    assert_eq!(b.physical_qubits_for_algorithm, 540);
    assert_eq!(b.physical_qubits_for_tfactories, 1_440);
    assert_eq!(b.clock_frequency, 555_555);
    assert_eq!(b.clifford_error_rate, 1_000_000_000_000);
    assert_eq!(r.physical_counts.physical_qubits, 1_980);
    assert_eq!(r.physical_counts.runtime, 270_000);
    assert_eq!(r.physical_counts.rqops, 16_666_650);
}

#[test]
fn zero_rounds_with_tight_budget_fails() {
    let r = estimate(scenario_counts(), maj_e6(), surface(), Constraints { max_distillation_rounds: 0 }, BUDGET_1E3);
    assert_eq!(r.unwrap_err(), EstimationError::NoFeasibleTFactory);
}

#[test]
fn rotations_need_t_states() {
    let c = counts(4, 0, 8, 2);
    let r = estimate(c, maj_e6(), surface(), Constraints { max_distillation_rounds: 3 }, BUDGET_1E3).unwrap();
    let b = r.physical_counts.breakdown;
    // ceil(0.53 * 15 + 5.3), where 15 is log2(8 / 3.33e-4) rounded up
    assert_eq!(b.num_ts_per_rotation, Some(14));
    assert_eq!(b.num_tstates, 8 * 14);
    assert_eq!(b.algorithmic_logical_depth, 8 + 2 * 14);
}

#[test]
fn rotation_depth_above_count_is_invalid() {
    let r = estimate(counts(2, 0, 1, 2), maj_e6(), surface(), Constraints { max_distillation_rounds: 3 }, BUDGET_1E3);
    assert_eq!(r.unwrap_err(), EstimationError::InvalidLogicalCounts);
}

#[test]
fn zero_rotation_share_with_rotations_is_invalid() {
    let split = ErrorBudget { logical: 500, tstates: 500, rotations: 0 };
    let r = estimate_with_policy(counts(2, 0, 1, 1), maj_e6(), surface(), Constraints { max_distillation_rounds: 3 }, 1000, BudgetPolicy::Explicit(split));
    assert_eq!(r.unwrap_err(), EstimationError::InvalidBudget);
}

#[test]
fn small_distance_cap_fails() {
    let mut s = surface();
    s.max_code_distance = 1;
    let r = estimate(scenario_counts(), maj_e6(), s, Constraints { max_distillation_rounds: 3 }, BUDGET_1E3);
    assert_eq!(r.unwrap_err(), EstimationError::NoFeasibleCodeDistance);
}

#[test]
fn malformed_hardware_is_a_configuration_error() {
    let mut q = maj_e6();
    q.t_gate_time = 0;
    let r = estimate(scenario_counts(), q, surface(), Constraints { max_distillation_rounds: 3 }, BUDGET_1E3);
    assert_eq!(r.unwrap_err(), EstimationError::ConfigurationError);
}

#[test]
fn unknown_presets_are_configuration_errors() {
    assert_eq!(qubit_params_preset("qubit_unknown").unwrap_err(), EstimationError::ConfigurationError);
    assert_eq!(qec_scheme_preset("color_code").unwrap_err(), EstimationError::ConfigurationError);
    assert!(resolve_params("qubit_gate_ns_e3", "nope").is_err());
    let p = resolve_params("qubit_gate_ns_e4", "floquet_code").unwrap();
    assert_eq!(p.qubit_params.two_qubit_gate_error_rate, 100_000_000_000_000);
    assert_eq!(p.qec_scheme.crossing_prefactor, 70_000_000_000_000_000);
}

#[test]
fn default_config_names_majorana_surface_code() {
    let c = default_estimation_config();
    assert_eq!(c.label, "qubit_maj_ns_e6 + surface_code");
    assert_eq!(c.detail, "Majorana qubit with 1e-6 error rate (surface code QEC)");
    assert_eq!(c.params.qubit_params.name, "qubit_maj_ns_e6");
    assert_eq!(c.params.qubit_params.t_gate_error_rate, 10_000_000_000_000_000);
    assert_eq!(c.params.qec_scheme.name, "surface_code");
}

#[test]
fn query_estimates_example_program() {
    let r = Query::estimation_result().unwrap();
    assert_eq!(r.status(), "Success");
    assert_eq!(r.logical_counts.num_qubits, 10);
    assert_eq!(r.job_params.qubit_params.name, "qubit_maj_ns_e6");
    assert!(r.physical_counts.physical_qubits > 0);
}

#[test]
fn mutation_uses_requested_presets() {
    let input = |q: &str, s: &str| EstimationInput {
        label: "l".to_string(),
        detail: "d".to_string(),
        params: ParamsInput {
            qubit_params: QubitParamsInput { name: q.to_string() },
            qec_scheme: QecSchemeInput { name: s.to_string() },
        },
    };
    let r = Mutation::create_estimation(input("qubit_gate_ns_e3", "surface_code")).unwrap();
    assert_eq!(r.job_params.qubit_params.name, "qubit_gate_ns_e3");
    let e = Mutation::create_estimation(input("qubit_x", "surface_code")).unwrap_err();
    assert_eq!(e, EstimationError::ConfigurationError);
    assert_eq!(e.stage(), "configuration");
    assert!(!e.message().is_empty());
}

#[test]
fn integer_helpers() {
    assert_eq!(ceil_sqrt_exec(0), 0);
    assert_eq!(ceil_sqrt_exec(80), 9);
    assert_eq!(ceil_sqrt_exec(81), 9);
    assert_eq!(ceil_sqrt_exec(82), 10);
    assert_eq!(log2_ceil_exec(1), 0);
    assert_eq!(log2_ceil_exec(5), 3);
    assert_eq!(log2_ceil_exec(8), 3);
    assert_eq!(prob_mul_up(PROB_ONE / 2, PROB_ONE / 2), PROB_ONE / 4);
    assert_eq!(prob_mul_up(1, 1), 1);
}

#[test]
fn counts_are_grouped_by_three() {
    assert_eq!(format_count(0), "0");
    assert_eq!(format_count(999), "999");
    assert_eq!(format_count(1_000), "1,000");
    assert_eq!(format_count(1_000_005), "1,000,005");
    assert_eq!(format_count(12_345_678), "12,345,678");
}

#[test]
fn durations_take_a_unit_by_magnitude() {
    assert_eq!(format_duration(0), "0ns");
    assert_eq!(format_duration(999), "999ns");
    assert_eq!(format_duration(1_800), "1us");
    assert_eq!(format_duration(270_000), "270us");
    assert_eq!(format_duration(5_000_000), "5ms");
    assert_eq!(format_duration(12_000_000_000_000), "12,000s");
    assert_eq!(format_percentage(1_440, 1_980), "72%");
    assert_eq!(format_percentage(0, 0), "0%");
}

#[test]
fn scenario_is_rendered() {
    let r = estimate(scenario_counts(), maj_e6(), surface(), Constraints { max_distillation_rounds: 3 }, BUDGET_1E3).unwrap();
    let f = r.physical_counts_formatted();
    assert_eq!(f.runtime, "270us");
    assert_eq!(f.physical_qubits, "1,980");
    assert_eq!(f.rqops, "16,666,650");
    assert_eq!(f.logical_cycle_time, "1us");
    assert_eq!(f.clock_frequency, "555,555Hz");
    assert_eq!(f.physical_qubits_for_tfactories_percentage, "72%");
    assert_eq!(f.physical_qubits_per_logical_qubit, "18");
    let report = r.report_data();
    assert_eq!(report.groups.len(), 2);
    assert!(report.groups[0].always_visible);
    assert_eq!(report.groups[0].entries[0].path, "physicalCounts/physicalQubits");
    assert_eq!(report.groups[0].entries[0].explanation, "1,980");
    assert_eq!(report.groups[1].entries[4].path, "logicalQubit/codeDistance");
    assert_eq!(report.groups[1].entries[4].explanation, "3");
    assert_eq!(report.assumptions.len(), 3);
}

#[test]
fn four_rounds_are_searched_when_allowed() {
    let mut q = maj_e6();
    q.t_gate_error_rate = 100_000_000_000_000_000;
    let c = counts(10, 100_000, 0, 0);
    let r = estimate(c, q.clone(), surface(), Constraints { max_distillation_rounds: 4 }, BUDGET_1E3).unwrap();
    let f = r.tfactory.unwrap();
    assert_eq!(f.rounds, 4);
    assert_eq!(f.output_error_rate, 35);
    assert_eq!(r.physical_counts.breakdown.required_logical_tstate_error_rate, Some(3_333_333_333));
    let e = estimate(c, q, surface(), Constraints { max_distillation_rounds: 3 }, BUDGET_1E3);
    assert_eq!(e.unwrap_err(), EstimationError::NoFeasibleTFactory);
}

#[test]
fn majorana_e4_needs_four_rounds_for_tight_bound() {
    let q = qubit_params_preset("qubit_maj_ns_e4").unwrap();
    assert_eq!(plan_tfactory(&q, 500, 3).unwrap_err(), EstimationError::NoFeasibleTFactory);
    let f = plan_tfactory(&q, 500, 4).unwrap();
    assert_eq!(f.rounds, 4);
    assert!(f.output_error_rate <= 500);
}

#[test]
fn round_limits_above_sixteen_are_accepted() {
    let q = maj_e6();
    let f = plan_tfactory(&q, 35, 100).unwrap();
    assert_eq!(f.rounds, 3);
    assert_eq!(f.output_error_rate, 35);
    assert_eq!(plan_tfactory(&q, 34, 100).unwrap_err(), EstimationError::NoFeasibleTFactory);
    assert_eq!(plan_tfactory(&q, 34, u64::MAX).unwrap_err(), EstimationError::NoFeasibleTFactory);
}

#[test]
fn error_rates_are_rendered() {
    let r = estimate(scenario_counts(), maj_e6(), surface(), Constraints { max_distillation_rounds: 3 }, BUDGET_1E3).unwrap();
    let f = r.physical_counts_formatted();
    assert_eq!(f.required_logical_qubit_error_rate, "74074074074e-18");
    assert_eq!(f.required_logical_tstate_error_rate, "3333333333333e-18");
    assert_eq!(f.logical_error_rate, "300000000e-18");
    let none = estimate(counts(1, 0, 0, 0), maj_e6(), surface(), Constraints { max_distillation_rounds: 3 }, BUDGET_1E3).unwrap();
    assert_eq!(none.physical_counts_formatted().required_logical_tstate_error_rate, "N/A");
}

#[test]
fn report_entries_and_messages_are_exact() {
    let r = estimate(scenario_counts(), maj_e6(), surface(), Constraints { max_distillation_rounds: 3 }, BUDGET_1E3).unwrap();
    let report = r.report_data();
    assert_eq!(report.groups[0].entries[1].label, "Runtime");
    assert_eq!(report.groups[0].entries[1].explanation, "270us");
    assert_eq!(report.groups[1].entries[2].explanation, "100");
    assert_eq!(report.assumptions[0], "Classical control overhead is ignored.");
    assert_eq!(
        EstimationError::NoFeasibleTFactory.message(),
        "no distillation factory within the round limit meets the T-state error budget"
    );
}

//! The estimator: from logical counts and a hardware model to physical resources.
use vstd::prelude::*;
use crate::budget::{allocate_budget, allocation, BudgetPolicy, ErrorBudget};
use crate::counts::{ceil_sqrt, ceil_sqrt_exec, log2_ceil, log2_ceil_exec, LogicalCounts};
use crate::error::EstimationError;
use crate::factory::{candidate_at, best_factory, candidate_count, lemma_best_factory, lemma_best_factory_same_model, plan_tfactory, TFactory};
use crate::hardware::{same_qec_model, same_qubit_model, Constraints, QecScheme, QubitParams, MAX_CODE_DISTANCE};
use crate::layout::{logical_error_rate, logical_error_rate_exec, min_code_distance, plan_code_distance};
use crate::units::PROB_ONE;

verus! {

/// The inputs that an estimate was made from.
#[derive(Debug)]
pub struct JobParams {
    pub qubit_params: QubitParams,
    pub qec_scheme: QecScheme,
    pub constraints: Constraints,
    pub error_budget: u64,
    pub budget_policy: BudgetPolicy,
}

/// The logical qubit at the selected code distance. The cycle time is in
/// nanoseconds, the error rate in units of 10^-18.
#[derive(Clone, Copy, Debug, PartialEq, Eq, Structural)]
pub struct LogicalQubit {
    pub code_distance: u64,
    pub physical_qubits: u64,
    pub logical_cycle_time: u128,
    pub logical_error_rate: u64,
}

/// How the physical resources come about. The clock frequency is in logical
/// cycles per second; error rates are in units of 10^-18.
#[derive(Clone, Copy, Debug, PartialEq, Eq, Structural)]
pub struct PhysicalCountsBreakdown {
    pub algorithmic_logical_qubits: u64,
    pub algorithmic_logical_depth: u64,
    pub logical_depth: u64,
    pub num_tstates: u64,
    pub clock_frequency: u128,
    pub num_tfactories: u64,
    pub num_tfactory_runs: u64,
    pub physical_qubits_for_tfactories: u128,
    pub physical_qubits_for_algorithm: u128,
    pub required_logical_qubit_error_rate: u64,
    pub required_logical_tstate_error_rate: Option<u64>,
    pub num_ts_per_rotation: Option<u64>,
    pub clifford_error_rate: u64,
}

/// The physical resources: qubits, runtime in nanoseconds, and reliable
/// logical operations per second.
#[derive(Clone, Copy, Debug, PartialEq, Eq, Structural)]
pub struct PhysicalCounts {
    pub physical_qubits: u128,
    pub runtime: u128,
    pub rqops: u128,
    pub breakdown: PhysicalCountsBreakdown,
}

/// The numeric part of an estimate.
#[derive(Clone, Copy, Debug, PartialEq, Eq, Structural)]
pub struct Estimate {
    pub error_budget: ErrorBudget,
    pub logical_qubit: LogicalQubit,
    pub physical_counts: PhysicalCounts,
    pub tfactory: Option<TFactory>,
}

/// A complete estimate together with the inputs it was made from.
#[derive(Debug)]
pub struct EstimationResult {
    pub job_params: JobParams,
    pub logical_counts: LogicalCounts,
    pub error_budget: ErrorBudget,
    pub logical_qubit: LogicalQubit,
    pub physical_counts: PhysicalCounts,
    pub tfactory: Option<TFactory>,
}

impl Clone for JobParams {
    fn clone(&self) -> (r: Self)
        ensures
            r == *self,
    {
        JobParams {
            qubit_params: self.qubit_params.clone(),
            qec_scheme: self.qec_scheme.clone(),
            constraints: self.constraints,
            error_budget: self.error_budget,
            budget_policy: self.budget_policy,
        }
    }
}

impl Clone for EstimationResult {
    fn clone(&self) -> (r: Self)
        ensures
            r == *self,
    {
        EstimationResult {
            job_params: self.job_params.clone(),
            logical_counts: self.logical_counts,
            error_budget: self.error_budget,
            logical_qubit: self.logical_qubit,
            physical_counts: self.physical_counts,
            tfactory: self.tfactory,
        }
    }
}

impl EstimationResult {
    /// The status tag of a completed estimate.
    pub fn status(&self) -> (r: String)
        ensures
            r@ == "Success"@,
    {
        String::from_str("Success")
    }
}

pub open spec fn div_up(a: nat, b: nat) -> nat {
    ((a + b - 1) as nat) / b
}

/// T states per rotation: `ceil(0.53 * log2(rotations / budget) + 5.3)`, with
/// the logarithm rounded up; none without rotations.
pub open spec fn ts_per_rotation(c: LogicalCounts, rotation_budget: nat) -> nat {
    if c.rotation_count == 0 {
        0
    } else {
        (53 * log2_ceil(div_up((c.rotation_count * PROB_ONE) as nat, rotation_budget)) + 629) / 100
    }
}

/// Logical qubits of the layout: `2 Q + ceil(sqrt(8 Q)) + 1` for `Q` program qubits.
pub open spec fn algorithmic_logical_qubits(c: LogicalCounts) -> nat {
    (2 * c.num_qubits + ceil_sqrt((8 * c.num_qubits) as nat) + 1) as nat
}

/// Logical cycles of the program.
pub open spec fn algorithmic_logical_depth(c: LogicalCounts, ts: nat) -> nat {
    (c.measurement_count + c.rotation_count + c.t_count + 3 * (c.ccz_count + c.ccix_count)
        + ts * c.rotation_depth) as nat
}

/// T states that the program consumes.
pub open spec fn tstate_count(c: LogicalCounts, ts: nat) -> nat {
    (c.t_count + 4 * (c.ccz_count + c.ccix_count) + ts * c.rotation_count) as nat
}

/// The error rate that each logical qubit may have per logical cycle.
pub open spec fn required_qubit_rate(logical_budget: nat, qubits: nat, depth: nat) -> nat {
    logical_budget / (qubits * if depth == 0 { 1 } else { depth })
}

/// The logical qubit at code distance `d`.
pub open spec fn logical_qubit_at(q: QubitParams, s: QecScheme, d: nat) -> LogicalQubit {
    LogicalQubit {
        code_distance: d as u64,
        physical_qubits: s.qubits_per_logical_spec(d) as u64,
        logical_cycle_time: s.cycle_time_spec(q, d) as u128,
        logical_error_rate: logical_error_rate(
            s.crossing_prefactor as nat,
            q.clifford_error_rate_spec(),
            s.error_correction_threshold as nat,
            d,
        ) as u64,
    }
}

/// How many copies of factory `f` run, and how often each runs, so that
/// `tstates` T states are ready within `runtime`.
pub open spec fn factory_usage(tstates: nat, runtime: nat, f: TFactory) -> (nat, nat) {
    let runs = if runtime / (f.duration as nat) >= 1 { runtime / (f.duration as nat) } else { 1 };
    let copies = div_up(tstates, runs);
    (copies, div_up(tstates, copies))
}

/// The physical counts of a program laid out with logical qubit `lq` and, when
/// it consumes T states, factory `f`.
pub open spec fn physical_counts_of(
    q: QubitParams,
    c: LogicalCounts,
    b: ErrorBudget,
    lq: LogicalQubit,
    f: Option<TFactory>,
) -> PhysicalCounts {
    let ts = ts_per_rotation(c, b.rotations as nat);
    let qubits = algorithmic_logical_qubits(c);
    let depth = algorithmic_logical_depth(c, ts);
    let tstates = tstate_count(c, ts);
    let runtime = (depth * lq.logical_cycle_time) as nat;
    let usage = match f {
        Some(g) => factory_usage(tstates, runtime, g),
        None => (0, 0),
    };
    let factory_qubits = match f {
        Some(g) => usage.0 * g.physical_qubits,
        None => 0,
    };
    let algorithm_qubits = qubits * lq.physical_qubits;
    let clock = 1_000_000_000nat / (lq.logical_cycle_time as nat);
    PhysicalCounts {
        physical_qubits: (algorithm_qubits + factory_qubits) as u128,
        runtime: runtime as u128,
        rqops: (qubits * clock) as u128,
        breakdown: PhysicalCountsBreakdown {
            algorithmic_logical_qubits: qubits as u64,
            algorithmic_logical_depth: depth as u64,
            logical_depth: depth as u64,
            num_tstates: tstates as u64,
            clock_frequency: clock as u128,
            num_tfactories: usage.0 as u64,
            num_tfactory_runs: usage.1 as u64,
            physical_qubits_for_tfactories: factory_qubits as u128,
            physical_qubits_for_algorithm: algorithm_qubits as u128,
            required_logical_qubit_error_rate: required_qubit_rate(b.logical as nat, qubits, depth) as u64,
            required_logical_tstate_error_rate: if tstates == 0 {
                None
            } else {
                Some((b.tstates as nat / tstates) as u64)
            },
            num_ts_per_rotation: if c.rotation_count == 0 { None } else { Some(ts as u64) },
            clifford_error_rate: q.clifford_error_rate_spec() as u64,
        },
    }
}

/// What an estimate with these inputs is, or the error it fails with.
pub open spec fn estimation(
    c: LogicalCounts,
    q: QubitParams,
    s: QecScheme,
    k: Constraints,
    total: nat,
    policy: BudgetPolicy,
) -> Result<Estimate, EstimationError> {
    match allocation(total, policy) {
        Err(e) => Err(e),
        Ok(b) => if !c.wf() {
            Err(EstimationError::InvalidLogicalCounts)
        } else if !q.wf() || !s.wf() {
            Err(EstimationError::ConfigurationError)
        } else if c.rotation_count > 0 && b.rotations == 0 {
            Err(EstimationError::InvalidBudget)
        } else {
            let ts = ts_per_rotation(c, b.rotations as nat);
            let qubits = algorithmic_logical_qubits(c);
            let depth = algorithmic_logical_depth(c, ts);
            let tstates = tstate_count(c, ts);
            let required = required_qubit_rate(b.logical as nat, qubits, depth);
            match min_code_distance(
                s.crossing_prefactor as nat,
                q.clifford_error_rate_spec(),
                s.error_correction_threshold as nat,
                required,
                s.max_code_distance as nat,
            ) {
                None => Err(EstimationError::NoFeasibleCodeDistance),
                Some(d) => {
                    let lq = logical_qubit_at(q, s, d);
                    if tstates == 0 {
                        Ok(Estimate {
                            error_budget: b,
                            logical_qubit: lq,
                            physical_counts: physical_counts_of(q, c, b, lq, None),
                            tfactory: None,
                        })
                    } else {
                        match best_factory(
                            q,
                            b.tstates as nat / tstates,
                            candidate_count(k.max_distillation_rounds as nat),
                        ) {
                            None => Err(EstimationError::NoFeasibleTFactory),
                            Some(f) => Ok(Estimate {
                                error_budget: b,
                                logical_qubit: lq,
                                physical_counts: physical_counts_of(q, c, b, lq, Some(f)),
                                tfactory: Some(f),
                            }),
                        }
                    }
                },
            }
        },
    }
}

fn ts_per_rotation_exec(c: &LogicalCounts, rotation_budget: u64) -> (r: u64)
    requires
        c.rotation_count == 0 || rotation_budget > 0,
    ensures
        r == ts_per_rotation(*c, rotation_budget as nat),
        r <= 74,
{
    if c.rotation_count == 0 {
        return 0;
    }
    proof {
        assert(c.rotation_count * PROB_ONE <= 0xffff_ffff * PROB_ONE) by (nonlinear_arith)
            requires c.rotation_count <= 0xffff_ffffu32;
    }
    let ratio: u128 = ((c.rotation_count as u128) * (PROB_ONE as u128) + (rotation_budget as u128) - 1)
        / (rotation_budget as u128);
    let l = log2_ceil_exec(ratio);
    (53 * l + 629) / 100
}

/// The logical qubit at code distance `d`.
fn logical_qubit_exec(q: &QubitParams, s: &QecScheme, d: u64) -> (lq: LogicalQubit)
    requires
        q.wf(),
        s.wf(),
        3 <= d <= MAX_CODE_DISTANCE,
    ensures
        lq == logical_qubit_at(*q, *s, d as nat),
        0 < lq.logical_cycle_time <= 20_002_000_000_000_000_000,
        lq.physical_qubits <= 100_020_001_000,
{
    let p = q.clifford_error_rate();
    let rate = logical_error_rate_exec(s.crossing_prefactor, p, s.error_correction_threshold, d);
    proof {
        assert(s.physical_qubits_per_distance_squared * d <= 1000 * 10_001) by (nonlinear_arith)
            requires s.physical_qubits_per_distance_squared <= 1000, d <= 10_001;
        assert(s.physical_qubits_per_distance_squared * d * d <= 1000 * 10_001 * 10_001) by (nonlinear_arith)
            requires s.physical_qubits_per_distance_squared <= 1000, d <= 10_001;
        let g = s.cycle_gate_factor * q.two_qubit_gate_time + s.cycle_measurement_factor * q.one_qubit_measurement_time;
        assert(s.cycle_gate_factor * q.two_qubit_gate_time <= 1000 * 1_000_000_000_000) by (nonlinear_arith)
            requires s.cycle_gate_factor <= 1000, q.two_qubit_gate_time <= 1_000_000_000_000u64;
        assert(s.cycle_measurement_factor * q.one_qubit_measurement_time <= 1000 * 1_000_000_000_000) by (nonlinear_arith)
            requires s.cycle_measurement_factor <= 1000, q.one_qubit_measurement_time <= 1_000_000_000_000u64;
        assert(g > 0) by (nonlinear_arith)
            requires
                g == s.cycle_gate_factor * q.two_qubit_gate_time + s.cycle_measurement_factor * q.one_qubit_measurement_time,
                s.cycle_gate_factor + s.cycle_measurement_factor > 0,
                q.two_qubit_gate_time > 0, q.one_qubit_measurement_time > 0;
        assert(g * d <= 2_000_000_000_000_000 * 10_001) by (nonlinear_arith)
            requires g <= 2_000_000_000_000_000, d <= 10_001;
        assert(g * d > 0) by (nonlinear_arith)
            requires g > 0, d > 0;
    }
    let per_d: u128 = (s.cycle_gate_factor as u128) * (q.two_qubit_gate_time as u128)
        + (s.cycle_measurement_factor as u128) * (q.one_qubit_measurement_time as u128);
    LogicalQubit {
        code_distance: d,
        physical_qubits: s.physical_qubits_per_distance_squared * d * d,
        logical_cycle_time: per_d * (d as u128),
        logical_error_rate: rate,
    }
}

/// The logical quantities of a program: T states per rotation, logical
/// qubits, logical depth, T states, and the error rate each logical qubit may
/// have per cycle.
struct ProgramShape {
    ts: u64,
    qubits: u64,
    depth: u64,
    tstates: u64,
    required: u64,
}

spec fn is_shape_of(sh: ProgramShape, c: LogicalCounts, b: ErrorBudget) -> bool {
    let ts = ts_per_rotation(c, b.rotations as nat);
    &&& sh.ts == ts
    &&& sh.ts <= 74
    &&& sh.qubits == algorithmic_logical_qubits(c)
    &&& 1 <= sh.qubits <= 0x10_0000_0000
    &&& sh.depth == algorithmic_logical_depth(c, ts)
    &&& sh.depth <= 0x100_0000_0000
    &&& sh.tstates == tstate_count(c, ts)
    &&& sh.tstates <= 0x100_0000_0000
    &&& sh.required == required_qubit_rate(b.logical as nat, sh.qubits as nat, sh.depth as nat)
}

fn program_shape(c: &LogicalCounts, b: &ErrorBudget) -> (sh: ProgramShape)
    requires
        c.rotation_count == 0 || b.rotations > 0,
    ensures
        is_shape_of(sh, *c, *b),
{
    let ts = ts_per_rotation_exec(c, b.rotations);
    let root = ceil_sqrt_exec(8 * (c.num_qubits as u64));
    let qubits: u64 = 2 * (c.num_qubits as u64) + root + 1;
    proof {
        assert(ts * c.rotation_depth <= 74 * 0xffff_ffff) by (nonlinear_arith)
            requires ts <= 74, c.rotation_depth <= 0xffff_ffffu32;
        assert(ts * c.rotation_count <= 74 * 0xffff_ffff) by (nonlinear_arith)
            requires ts <= 74, c.rotation_count <= 0xffff_ffffu32;
    }
    let depth: u64 = c.measurement_count as u64 + c.rotation_count as u64 + c.t_count as u64
        + 3 * (c.ccz_count as u64 + c.ccix_count as u64) + ts * (c.rotation_depth as u64);
    let tstates: u64 = c.t_count as u64 + 4 * (c.ccz_count as u64 + c.ccix_count as u64)
        + ts * (c.rotation_count as u64);
    proof {
        assert(qubits * (if depth == 0 { 1 } else { depth }) >= 1) by (nonlinear_arith)
            requires qubits >= 1;
        assert(qubits * (if depth == 0 { 1 } else { depth }) <= 0x10_0000_0000 * 0x100_0000_0000) by (nonlinear_arith)
            requires qubits <= 0x10_0000_0000u64, depth <= 0x100_0000_0000u64;
    }
    let denominator: u128 = (qubits as u128) * (if depth == 0 { 1 } else { depth as u128 });
    let required: u128 = (b.logical as u128) / denominator;
    proof {
        assert(required <= b.logical) by (nonlinear_arith)
            requires required == (b.logical as nat) / (denominator as nat), denominator >= 1;
    }
    ProgramShape { ts, qubits, depth, tstates, required: required as u64 }
}

/// Physical counts of a program laid out with logical qubit `lq` and factory `f`.
fn physical_counts_exec(
    q: &QubitParams,
    c: &LogicalCounts,
    b: &ErrorBudget,
    sh: &ProgramShape,
    lq: &LogicalQubit,
    f: Option<TFactory>,
) -> (pc: PhysicalCounts)
    requires
        q.wf(),
        is_shape_of(*sh, *c, *b),
        0 < lq.logical_cycle_time <= 20_002_000_000_000_000_000,
        lq.physical_qubits <= 100_020_001_000,
        f is Some ==> 0 < f->Some_0.duration && sh.tstates > 0,
    ensures
        pc == physical_counts_of(*q, *c, *b, *lq, f),
{
    let (ts, qubits, depth, tstates) = (sh.ts, sh.qubits, sh.depth, sh.tstates);
    proof {
        assert(depth * lq.logical_cycle_time <= 0x100_0000_0000 * 20_002_000_000_000_000_000) by (nonlinear_arith)
            requires depth <= 0x100_0000_0000u64, lq.logical_cycle_time <= 20_002_000_000_000_000_000u128;
        assert(qubits * lq.physical_qubits <= 0x10_0000_0000 * 100_020_001_000) by (nonlinear_arith)
            requires qubits <= 0x10_0000_0000u64, lq.physical_qubits <= 100_020_001_000u64;
    }
    let runtime: u128 = (depth as u128) * lq.logical_cycle_time;
    let (copies, runs_each, factory_qubits): (u64, u64, u128) = match f {
        Some(g) => {
            let fit: u128 = runtime / g.duration;
            let runs: u128 = if fit >= 1 { fit } else { 1 };
            let copies: u128 = ((tstates as u128) + runs - 1) / runs;
            proof {
                assert(copies <= tstates) by (nonlinear_arith)
                    requires copies == ((tstates + runs - 1) as nat) / (runs as nat), runs >= 1, tstates >= 1;
                assert(copies >= 1) by (nonlinear_arith)
                    requires copies == ((tstates + runs - 1) as nat) / (runs as nat), runs >= 1, tstates >= 1;
                assert(copies * g.physical_qubits <= 0x100_0000_0000 * 0xffff_ffff_ffff_ffff) by (nonlinear_arith)
                    requires copies <= 0x100_0000_0000u128, g.physical_qubits <= 0xffff_ffff_ffff_ffffu64;
            }
            let each: u128 = ((tstates as u128) + copies - 1) / copies;
            proof {
                assert(each <= tstates) by (nonlinear_arith)
                    requires each == ((tstates + copies - 1) as nat) / (copies as nat), copies >= 1, tstates >= 1;
            }
            (copies as u64, each as u64, copies * (g.physical_qubits as u128))
        },
        None => (0, 0, 0),
    };
    let algorithm_qubits: u128 = (qubits as u128) * (lq.physical_qubits as u128);
    let clock: u128 = 1_000_000_000 / lq.logical_cycle_time;
    proof {
        assert(qubits * clock <= 0x10_0000_0000 * 1_000_000_000) by (nonlinear_arith)
            requires qubits <= 0x10_0000_0000u64, clock <= 1_000_000_000u128;
    }
    PhysicalCounts {
        physical_qubits: algorithm_qubits + factory_qubits,
        runtime,
        rqops: (qubits as u128) * clock,
        breakdown: PhysicalCountsBreakdown {
            algorithmic_logical_qubits: qubits,
            algorithmic_logical_depth: depth,
            logical_depth: depth,
            num_tstates: tstates,
            clock_frequency: clock,
            num_tfactories: copies,
            num_tfactory_runs: runs_each,
            physical_qubits_for_tfactories: factory_qubits,
            physical_qubits_for_algorithm: algorithm_qubits,
            required_logical_qubit_error_rate: sh.required,
            required_logical_tstate_error_rate: if tstates == 0 { None } else { Some(b.tstates / tstates) },
            num_ts_per_rotation: if c.rotation_count == 0 { None } else { Some(ts) },
            clifford_error_rate: q.clifford_error_rate(),
        },
    }
}

/// `r` is what `estimate_with_policy` returns on these inputs: the estimate
/// with the inputs echoed, or exactly the error that `estimation` names.
pub open spec fn estimate_outcome(
    c: LogicalCounts,
    q: QubitParams,
    s: QecScheme,
    k: Constraints,
    total: u64,
    policy: BudgetPolicy,
    r: Result<EstimationResult, EstimationError>,
) -> bool {
    match estimation(c, q, s, k, total as nat, policy) {
        Ok(e) => r is Ok && {
            let res = r->Ok_0;
            &&& res.job_params == (JobParams {
                qubit_params: q,
                qec_scheme: s,
                constraints: k,
                error_budget: total,
                budget_policy: policy,
            })
            &&& res.logical_counts == c
            &&& res.error_budget == e.error_budget
            &&& res.logical_qubit == e.logical_qubit
            &&& res.physical_counts == e.physical_counts
            &&& res.tfactory == e.tfactory
        },
        Err(e) => r == Err::<EstimationResult, EstimationError>(e),
    }
}

/// Estimates the physical resources of a program whose logical counts are
/// `counts`, splitting `total_error_budget` according to `policy`.
pub fn estimate_with_policy(
    counts: LogicalCounts,
    qubit_params: QubitParams,
    qec_scheme: QecScheme,
    constraints: Constraints,
    total_error_budget: u64,
    policy: BudgetPolicy,
) -> (r: Result<EstimationResult, EstimationError>)
    ensures
        estimate_outcome(counts, qubit_params, qec_scheme, constraints, total_error_budget, policy, r),
{
    let b = match allocate_budget(total_error_budget, policy) {
        Ok(b) => b,
        Err(e) => return Err(e),
    };
    if counts.rotation_depth > counts.rotation_count {
        return Err(EstimationError::InvalidLogicalCounts);
    }
    if !qubit_params.is_well_formed() || !qec_scheme.is_well_formed() {
        return Err(EstimationError::ConfigurationError);
    }
    if counts.rotation_count > 0 && b.rotations == 0 {
        return Err(EstimationError::InvalidBudget);
    }
    let sh = program_shape(&counts, &b);
    let ghost (qubits, depth) = (sh.qubits, sh.depth);
    let d = match plan_code_distance(
        qec_scheme.crossing_prefactor,
        qubit_params.clifford_error_rate(),
        qec_scheme.error_correction_threshold,
        sh.required,
        qec_scheme.max_code_distance,
    ) {
        Ok(d) => d,
        Err(e) => return Err(e),
    };
    assert(min_code_distance(
        qec_scheme.crossing_prefactor as nat,
        qubit_params.clifford_error_rate_spec(),
        qec_scheme.error_correction_threshold as nat,
        required_qubit_rate(b.logical as nat, qubits as nat, depth as nat),
        qec_scheme.max_code_distance as nat,
    ) == Some(d as nat));
    let lq = logical_qubit_exec(&qubit_params, &qec_scheme, d);
    let tfactory: Option<TFactory> = if sh.tstates == 0 {
        None
    } else {
        match plan_tfactory(&qubit_params, b.tstates / sh.tstates, constraints.max_distillation_rounds) {
            Ok(f) => Some(f),
            Err(e) => return Err(e),
        }
    };
    let pc = physical_counts_exec(&qubit_params, &counts, &b, &sh, &lq, tfactory);
    proof {
        let e = estimation(counts, qubit_params, qec_scheme, constraints, total_error_budget as nat, policy);
        assert(allocation(total_error_budget as nat, policy) == Ok::<ErrorBudget, EstimationError>(b));
        assert(e is Ok);
        assert(e->Ok_0.error_budget == b);
        assert(e->Ok_0.logical_qubit == lq);
        assert(e->Ok_0.tfactory == tfactory);
        assert(e->Ok_0.physical_counts == pc);
    }
    Ok(EstimationResult {
        job_params: JobParams {
            qubit_params,
            qec_scheme,
            constraints,
            error_budget: total_error_budget,
            budget_policy: policy,
        },
        logical_counts: counts,
        error_budget: b,
        logical_qubit: lq,
        physical_counts: pc,
        tfactory,
    })
}

/// Estimates the physical resources of a program whose logical counts are
/// `counts`, splitting `total_error_budget` evenly.
pub fn estimate(
    counts: LogicalCounts,
    qubit_params: QubitParams,
    qec_scheme: QecScheme,
    constraints: Constraints,
    total_error_budget: u64,
) -> (r: Result<EstimationResult, EstimationError>)
    ensures
        estimate_outcome(counts, qubit_params, qec_scheme, constraints, total_error_budget, BudgetPolicy::Even, r),
{
    estimate_with_policy(counts, qubit_params, qec_scheme, constraints, total_error_budget, BudgetPolicy::Even)
}

/// Estimation is deterministic: two results that both meet the contract of
/// `estimate_with_policy` on the same inputs are equal, field by field.
pub proof fn lemma_estimate_deterministic(
    c: LogicalCounts,
    q: QubitParams,
    s: QecScheme,
    k: Constraints,
    total: u64,
    policy: BudgetPolicy,
    r1: Result<EstimationResult, EstimationError>,
    r2: Result<EstimationResult, EstimationError>,
)
    requires
        estimate_outcome(c, q, s, k, total, policy, r1),
        estimate_outcome(c, q, s, k, total, policy, r2),
    ensures
        r1 == r2,
{
    if r1 is Ok {
        let a = r1->Ok_0;
        let b = r2->Ok_0;
        assert(a.job_params == b.job_params);
        assert(a == b);
    }
}

/// An estimate depends on the qubit model and the scheme through their
/// numbers alone, not through their names.
pub proof fn lemma_estimation_ignores_names(
    c: LogicalCounts,
    q1: QubitParams,
    q2: QubitParams,
    s1: QecScheme,
    s2: QecScheme,
    k: Constraints,
    total: nat,
    policy: BudgetPolicy,
)
    requires
        same_qubit_model(q1, q2),
        same_qec_model(s1, s2),
    ensures
        estimation(c, q1, s1, k, total, policy) == estimation(c, q2, s2, k, total, policy),
{
    let b = allocation(total, policy);
    if b is Ok {
        let ts = ts_per_rotation(c, b->Ok_0.rotations as nat);
        let tstates = tstate_count(c, ts);
        if tstates > 0 {
            lemma_best_factory_same_model(
                q1,
                q2,
                b->Ok_0.tstates as nat / tstates,
                candidate_count(k.max_distillation_rounds as nat),
            );
        }
    }
}

/// The factory of an estimate never outputs T states whose error rate exceeds
/// the T-state share of the budget divided among the T states, and it uses no
/// more distillation rounds than the constraints allow.
pub proof fn lemma_estimate_factory_within_budget(
    c: LogicalCounts,
    q: QubitParams,
    s: QecScheme,
    k: Constraints,
    total: nat,
    policy: BudgetPolicy,
)
    requires
        estimation(c, q, s, k, total, policy) is Ok,
        estimation(c, q, s, k, total, policy)->Ok_0.tfactory is Some,
    ensures
        ({
            let e = estimation(c, q, s, k, total, policy)->Ok_0;
            let f = e.tfactory->Some_0;
            let tstates = tstate_count(c, ts_per_rotation(c, e.error_budget.rotations as nat));
            &&& tstates > 0
            &&& f.output_error_rate * tstates <= e.error_budget.tstates
            &&& f.rounds <= k.max_distillation_rounds
        }),
{
    let b = allocation(total, policy)->Ok_0;
    let ts = ts_per_rotation(c, b.rotations as nat);
    let tstates = tstate_count(c, ts);
    let required = b.tstates as nat / tstates;
    let n = candidate_count(k.max_distillation_rounds as nat);
    lemma_best_factory(q, required, n);
    let f = best_factory(q, required, n)->Some_0;
    let i = choose|i: nat| i < n && f == #[trigger] candidate_at(q, i);
    assert(f.rounds == i / 2);
    assert(f.output_error_rate * tstates <= b.tstates) by (nonlinear_arith)
        requires f.output_error_rate <= required, required == b.tstates as nat / tstates, tstates > 0;
}

} // verus!

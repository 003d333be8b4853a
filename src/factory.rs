//! Choosing a magic-state distillation factory for the T states.
use vstd::prelude::*;
use crate::error::EstimationError;
use crate::hardware::{same_qubit_model, QubitParams};
use crate::units::{mul_up, prob_mul_up, PROB_ONE};
use vstd::arithmetic::div_mod::lemma_div_is_ordered;

verus! {

/// The most distillation rounds that a factory can have: the first round of
/// a factory of 17 rounds runs 15^16 units, more physical qubits than a `u64`
/// counts. Within this limit the planner considers every round count that
/// the caller allows; beyond it, it relies on the output error rate having
/// stopped falling (see `lemma_stalled_output_stays_up`).
pub const MAX_FACTORY_ROUNDS: u64 = 16;

/// The 15-to-1 distillation unit layouts the planner can build factories from.
#[derive(Clone, Copy, Debug, PartialEq, Eq, Structural)]
pub enum DistillationUnit {
    /// Few qubits, many cycles.
    SpaceEfficient,
    /// More qubits, fewer cycles.
    ReedMullerPreparation,
}

/// A T-state factory: `rounds` rounds of distillation (none: raw physical T
/// gates), its physical qubits, the duration of one run in nanoseconds, and
/// the error rate of the T state it outputs.
#[derive(Clone, Copy, Debug, PartialEq, Eq, Structural)]
pub struct TFactory {
    pub rounds: u64,
    pub unit: DistillationUnit,
    pub physical_qubits: u64,
    pub duration: u128,
    pub output_error_rate: u64,
}

pub open spec fn unit_qubits(u: DistillationUnit) -> nat {
    match u {
        DistillationUnit::SpaceEfficient => 12,
        DistillationUnit::ReedMullerPreparation => 31,
    }
}

pub open spec fn unit_cycles(u: DistillationUnit) -> nat {
    match u {
        DistillationUnit::SpaceEfficient => 46,
        DistillationUnit::ReedMullerPreparation => 23,
    }
}

/// The output error rate of one 15-to-1 round on inputs of error rate `e`:
/// `35 * e^3`, rounded up and capped at 1.
pub open spec fn distill(e: nat) -> nat {
    let y = 35 * mul_up(mul_up(e, e), e);
    if y <= PROB_ONE { y } else { PROB_ONE as nat }
}

/// The error rate after `r` rounds that start from error rate `e`.
pub open spec fn distilled(e: nat, r: nat) -> nat
    decreases r,
{
    if r == 0 {
        e
    } else {
        distill(distilled(e, (r - 1) as nat))
    }
}

/// The round after round `k` no longer lowers the output error rate.
pub open spec fn output_stalls(e: nat, k: nat) -> bool {
    distilled(e, k + 1) >= distilled(e, k)
}

proof fn lemma_distilled_fits(e: nat, r: nat)
    requires
        e <= PROB_ONE,
    ensures
        distilled(e, r) <= PROB_ONE,
    decreases r,
{
    if r > 0 {
        lemma_distilled_fits(e, (r - 1) as nat);
    }
}

proof fn lemma_mul_up_monotone(x: nat, x2: nat, y: nat, y2: nat)
    requires
        x <= x2,
        y <= y2,
    ensures
        mul_up(x, y) <= mul_up(x2, y2),
{
    assert(x * y <= x2 * y2) by (nonlinear_arith)
        requires x <= x2, y <= y2;
    lemma_div_is_ordered(x * y + PROB_ONE - 1, x2 * y2 + PROB_ONE - 1, PROB_ONE as int);
}

proof fn lemma_distill_monotone(e: nat, e2: nat)
    requires
        e <= e2,
    ensures
        distill(e) <= distill(e2),
{
    lemma_mul_up_monotone(e, e2, e, e2);
    lemma_mul_up_monotone(mul_up(e, e), mul_up(e2, e2), e, e2);
}

/// Once a round no longer lowers the output error rate, no later round does:
/// every later output is at least the output at round `k`. So a round limit
/// above `k` admits no factory that meets a bound that round `k` misses.
pub proof fn lemma_stalled_output_stays_up(e: nat, k: nat, j: nat)
    requires
        output_stalls(e, k),
        k <= j,
    ensures
        distilled(e, j) >= distilled(e, k),
        output_stalls(e, j),
    decreases j - k,
{
    if j > k {
        lemma_stalled_output_stays_up(e, k, (j - 1) as nat);
        lemma_distill_monotone(distilled(e, (j - 1) as nat), distilled(e, j));
    }
}

pub open spec fn pow15(k: nat) -> nat
    decreases k,
{
    if k == 0 {
        1
    } else {
        15 * pow15((k - 1) as nat)
    }
}

/// The factory of `r` rounds built from unit `u`. The first round runs
/// `15^(r-1)` units side by side; each round takes the unit's cycles, a cycle
/// being a two-qubit gate and a measurement. With no rounds the factory is a
/// single physical qubit that applies a T gate.
pub open spec fn factory_candidate(q: QubitParams, u: DistillationUnit, r: nat) -> TFactory {
    TFactory {
        rounds: r as u64,
        unit: u,
        physical_qubits: (if r == 0 { 1 } else { unit_qubits(u) * pow15((r - 1) as nat) }) as u64,
        duration: (if r == 0 {
            q.t_gate_time as int
        } else {
            r * unit_cycles(u) * (q.two_qubit_gate_time + q.one_qubit_measurement_time)
        }) as u128,
        output_error_rate: distilled(q.t_gate_error_rate as nat, r) as u64,
    }
}

/// The `i`-th candidate in the planner's order: by rounds, then by unit.
pub open spec fn candidate_at(q: QubitParams, i: nat) -> TFactory {
    factory_candidate(
        q,
        if i % 2 == 0 { DistillationUnit::SpaceEfficient } else { DistillationUnit::ReedMullerPreparation },
        i / 2,
    )
}

/// Physical qubits times duration.
pub open spec fn factory_cost(f: TFactory) -> nat {
    (f.physical_qubits * f.duration) as nat
}

/// How many candidates the planner considers under a round limit.
pub open spec fn candidate_count(max_rounds: nat) -> nat {
    2 * (if max_rounds <= MAX_FACTORY_ROUNDS { max_rounds } else { MAX_FACTORY_ROUNDS as nat } + 1)
}

/// The cheapest of the first `n` candidates whose output error rate is at
/// most `required`, the earliest among equally cheap ones.
pub open spec fn best_factory(q: QubitParams, required: nat, n: nat) -> Option<TFactory>
    decreases n,
{
    if n == 0 {
        None
    } else {
        let prev = best_factory(q, required, (n - 1) as nat);
        let c = candidate_at(q, (n - 1) as nat);
        if c.output_error_rate <= required && (prev is None || factory_cost(c) < factory_cost(prev->Some_0)) {
            Some(c)
        } else {
            prev
        }
    }
}

fn distill_exec(e: u64) -> (r: u64)
    requires
        e <= PROB_ONE,
    ensures
        r == distill(e as nat),
        r <= PROB_ONE,
{
    let sq = prob_mul_up(e, e);
    let cube = prob_mul_up(sq, e);
    let y: u128 = 35 * (cube as u128);
    if y <= PROB_ONE as u128 {
        y as u64
    } else {
        PROB_ONE
    }
}

proof fn lemma_pow15_le(k: nat, m: nat)
    requires
        k <= m,
    ensures
        pow15(k) <= pow15(m),
    decreases m,
{
    if k < m {
        lemma_pow15_le(k, (m - 1) as nat);
    }
}

proof fn lemma_pow15_15()
    ensures
        pow15(15) == 437_893_890_380_859_375,
{
    reveal_with_fuel(pow15, 16);
}

proof fn lemma_candidate_bounds(q: QubitParams, u: DistillationUnit, r: nat)
    requires
        q.wf(),
        r <= MAX_FACTORY_ROUNDS,
    ensures
        ({
            let f = factory_candidate(q, u, r);
            &&& f.physical_qubits as nat == (if r == 0 { 1 } else { unit_qubits(u) * pow15((r - 1) as nat) })
            &&& 0 < f.duration <= 2_000_000_000_000_000
            &&& f.duration as nat == (if r == 0 {
                q.t_gate_time as int
            } else {
                r * unit_cycles(u) * (q.two_qubit_gate_time + q.one_qubit_measurement_time)
            })
        }),
{
    let t = q.two_qubit_gate_time + q.one_qubit_measurement_time;
    assert(r * unit_cycles(u) * t <= 16 * 46 * 2_000_000_000_000) by (nonlinear_arith)
        requires r <= 16, unit_cycles(u) <= 46, t <= 2_000_000_000_000;
    if r > 0 {
        assert(r * unit_cycles(u) * t > 0) by (nonlinear_arith)
            requires r > 0, unit_cycles(u) > 0, t > 0;
        lemma_pow15_le((r - 1) as nat, 15);
        lemma_pow15_15();
        assert(unit_qubits(u) * pow15((r - 1) as nat) <= 31 * 437_893_890_380_859_375) by (nonlinear_arith)
            requires unit_qubits(u) <= 31, pow15((r - 1) as nat) <= 437_893_890_380_859_375;
    }
}

/// Builds the factory of `r` rounds from unit `u`.
fn build_candidate(q: &QubitParams, u: DistillationUnit, r: u64) -> (f: TFactory)
    requires
        q.wf(),
        r <= MAX_FACTORY_ROUNDS,
    ensures
        f == factory_candidate(*q, u, r as nat),
        0 < f.duration <= 2_000_000_000_000_000,
{
    proof {
        lemma_candidate_bounds(*q, u, r as nat);
    }
    let (qubits, cycles): (u64, u64) = match u {
        DistillationUnit::SpaceEfficient => (12, 46),
        DistillationUnit::ReedMullerPreparation => (31, 23),
    };
    let mut e = q.t_gate_error_rate;
    let mut j: u64 = 0;
    while j < r
        invariant
            q.wf(),
            j <= r,
            e <= PROB_ONE,
            e == distilled(q.t_gate_error_rate as nat, j as nat),
        decreases r - j,
    {
        e = distill_exec(e);
        j = j + 1;
    }
    let mut physical_qubits: u64 = if r == 0 { 1 } else { qubits };
    let mut k: u64 = 1;
    while k < r
        invariant
            1 <= k <= r || r == 0,
            r <= MAX_FACTORY_ROUNDS,
            r > 0 ==> physical_qubits as nat == unit_qubits(u) * pow15((k - 1) as nat),
            r == 0 ==> physical_qubits == 1,
            qubits as nat == unit_qubits(u),
        decreases r - k,
    {
        proof {
            lemma_pow15_le(k as nat, 15);
            lemma_pow15_15();
            assert(unit_qubits(u) * pow15(k as nat) <= 31 * 437_893_890_380_859_375) by (nonlinear_arith)
                requires unit_qubits(u) <= 31, pow15(k as nat) <= 437_893_890_380_859_375;
            assert(pow15(k as nat) == 15 * pow15((k - 1) as nat));
            assert(unit_qubits(u) * pow15(k as nat) == 15 * (unit_qubits(u) * pow15((k - 1) as nat)))
                by (nonlinear_arith)
                requires pow15(k as nat) == 15 * pow15((k - 1) as nat);
        }
        physical_qubits = 15 * physical_qubits;
        k = k + 1;
    }
    let duration: u128 = if r == 0 {
        q.t_gate_time as u128
    } else {
        (r as u128) * (cycles as u128) * (q.two_qubit_gate_time as u128 + q.one_qubit_measurement_time as u128)
    };
    TFactory { rounds: r, unit: u, physical_qubits, duration, output_error_rate: e }
}

/// The chosen factory is one of the candidates, meets the requested error
/// rate, and is no costlier than any candidate that meets it; when none is
/// chosen, no candidate meets it.
pub proof fn lemma_best_factory(q: QubitParams, required: nat, n: nat)
    ensures
        match best_factory(q, required, n) {
            Some(b) => {
                &&& exists|i: nat| i < n && b == #[trigger] candidate_at(q, i)
                &&& b.output_error_rate <= required
                &&& forall|j: nat| j < n && (#[trigger] candidate_at(q, j)).output_error_rate <= required
                    ==> factory_cost(b) <= factory_cost(candidate_at(q, j))
            },
            None => forall|j: nat| j < n ==> (#[trigger] candidate_at(q, j)).output_error_rate > required,
        },
    decreases n,
{
    if n > 0 {
        lemma_best_factory(q, required, (n - 1) as nat);
        let prev = best_factory(q, required, (n - 1) as nat);
        let c = candidate_at(q, (n - 1) as nat);
        if c.output_error_rate <= required && (prev is None || factory_cost(c) < factory_cost(prev->Some_0)) {
            assert(c == candidate_at(q, (n - 1) as nat));
        } else if prev is Some {
            let i = choose|i: nat| i < n - 1 && prev->Some_0 == #[trigger] candidate_at(q, i);
            assert(i < n && prev->Some_0 == candidate_at(q, i));
        }
    }
}

/// Finds the cheapest factory, in physical qubits times duration, whose output
/// error rate is at most `required`, with at most `max_rounds` rounds.
pub fn plan_tfactory(q: &QubitParams, required: u64, max_rounds: u64) -> (r: Result<TFactory, EstimationError>)
    requires
        q.wf(),
    ensures
        match best_factory(*q, required as nat, candidate_count(max_rounds as nat)) {
            Some(f) => r == Ok::<TFactory, EstimationError>(f),
            None => r == Err::<TFactory, EstimationError>(EstimationError::NoFeasibleTFactory),
        },
        r is Ok ==> {
            &&& 0 < r->Ok_0.duration <= 2_000_000_000_000_000
            &&& r->Ok_0.output_error_rate <= required
            &&& r->Ok_0.rounds <= max_rounds
            &&& forall|j: nat| j < candidate_count(max_rounds as nat)
                && (#[trigger] candidate_at(*q, j)).output_error_rate <= required
                ==> factory_cost(r->Ok_0) <= factory_cost(candidate_at(*q, j))
        },
        r is Err ==> forall|j: nat| j < candidate_count(max_rounds as nat)
            ==> (#[trigger] candidate_at(*q, j)).output_error_rate > required,
        r is Err ==> forall|j: nat| j <= max_rounds
            && (j <= MAX_FACTORY_ROUNDS || output_stalls(q.t_gate_error_rate as nat, MAX_FACTORY_ROUNDS as nat))
            ==> #[trigger] distilled(q.t_gate_error_rate as nat, j) > required,
{
    let limit: u64 = if max_rounds <= MAX_FACTORY_ROUNDS { max_rounds } else { MAX_FACTORY_ROUNDS };
    let n: u64 = 2 * (limit + 1);
    let mut best: Option<TFactory> = None;
    let mut i: u64 = 0;
    while i < n
        invariant
            q.wf(),
            n == candidate_count(max_rounds as nat),
            n <= 34,
            i <= n,
            best == best_factory(*q, required as nat, i as nat),
            best is Some ==> 0 < best->Some_0.duration <= 2_000_000_000_000_000,
        decreases n - i,
    {
        let u = if i % 2 == 0 { DistillationUnit::SpaceEfficient } else { DistillationUnit::ReedMullerPreparation };
        let c = build_candidate(q, u, i / 2);
        if c.output_error_rate <= required {
            let better = match best {
                None => true,
                Some(b) => {
                    proof {
                        assert(c.physical_qubits * c.duration <= 0xffff_ffff_ffff_ffff * 2_000_000_000_000_000)
                            by (nonlinear_arith)
                            requires c.physical_qubits <= 0xffff_ffff_ffff_ffffu64, c.duration <= 2_000_000_000_000_000;
                        assert(b.physical_qubits * b.duration <= 0xffff_ffff_ffff_ffff * 2_000_000_000_000_000)
                            by (nonlinear_arith)
                            requires b.physical_qubits <= 0xffff_ffff_ffff_ffffu64, b.duration <= 2_000_000_000_000_000;
                    }
                    (c.physical_qubits as u128) * c.duration < (b.physical_qubits as u128) * b.duration
                },
            };
            if better {
                best = Some(c);
            }
        }
        i = i + 1;
    }
    proof {
        lemma_best_factory(*q, required as nat, n as nat);
        if best is Some {
            let k = choose|k: nat| k < n && best->Some_0 == #[trigger] candidate_at(*q, k);
            assert(k / 2 <= max_rounds);
        }
    }
    proof {
        if best is None {
            let e = q.t_gate_error_rate as nat;
            assert forall|j: nat| j <= max_rounds
                && (j <= MAX_FACTORY_ROUNDS || output_stalls(e, MAX_FACTORY_ROUNDS as nat))
                implies #[trigger] distilled(e, j) > required by {
                let m = MAX_FACTORY_ROUNDS as nat;
                let jj = if j <= m { j } else { m };
                assert(candidate_at(*q, 2 * jj).output_error_rate > required);
                lemma_distilled_fits(e, jj);
                if j > m {
                    lemma_stalled_output_stays_up(e, m, j);
                }
            }
        }
    }
    match best {
        Some(f) => Ok(f),
        None => Err(EstimationError::NoFeasibleTFactory),
    }
}

/// The planner's choice depends on the qubit model's numbers alone.
pub proof fn lemma_best_factory_same_model(q1: QubitParams, q2: QubitParams, required: nat, n: nat)
    requires
        same_qubit_model(q1, q2),
    ensures
        best_factory(q1, required, n) == best_factory(q2, required, n),
    decreases n,
{
    if n > 0 {
        lemma_best_factory_same_model(q1, q2, required, (n - 1) as nat);
        assert(candidate_at(q1, (n - 1) as nat) == candidate_at(q2, (n - 1) as nat));
    }
}

} // verus!

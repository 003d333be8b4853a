//! Choosing the code distance of the logical qubits.
use vstd::prelude::*;
use crate::error::EstimationError;
use crate::units::PROB_ONE;

verus! {

/// One more factor `p / pth` of error suppression, rounded up and capped at 1.
pub open spec fn suppress(x: nat, p: nat, pth: nat) -> nat {
    let y = (x * p + pth - 1) as nat / pth;
    if y <= PROB_ONE { y } else { PROB_ONE as nat }
}

/// `a` times `k` factors of `p / pth`, each step rounded up and capped at 1.
pub open spec fn suppressed(a: nat, p: nat, pth: nat, k: nat) -> nat
    decreases k,
{
    if k == 0 {
        a
    } else {
        suppress(suppressed(a, p, pth, (k - 1) as nat), p, pth)
    }
}

/// The error rate of a logical qubit at code distance `d`:
/// `a * (p / pth)^((d + 1) / 2)`, for crossing prefactor `a`, physical error
/// rate `p` and threshold `pth`.
pub open spec fn logical_error_rate(a: nat, p: nat, pth: nat, d: nat) -> nat {
    suppressed(a, p, pth, (d + 1) / 2)
}

/// The smallest odd distance from `d` up to `max` whose logical error rate is
/// at most `required`.
pub open spec fn first_distance_from(a: nat, p: nat, pth: nat, required: nat, d: nat, max: nat) -> Option<nat>
    decreases max + 2 - d,
{
    if d > max {
        None
    } else if logical_error_rate(a, p, pth, d) <= required {
        Some(d)
    } else {
        first_distance_from(a, p, pth, required, d + 2, max)
    }
}

/// The code distance that the planner selects: the smallest odd `d >= 3`.
pub open spec fn min_code_distance(a: nat, p: nat, pth: nat, required: nat, max: nat) -> Option<nat> {
    first_distance_from(a, p, pth, required, 3, max)
}

fn suppress_exec(x: u64, p: u64, pth: u64) -> (r: u64)
    requires
        p <= PROB_ONE,
        pth > 0,
    ensures
        r == suppress(x as nat, p as nat, pth as nat),
        r <= PROB_ONE,
{
    proof {
        assert(x * p <= 0xffff_ffff_ffff_ffff * PROB_ONE) by (nonlinear_arith)
            requires x <= 0xffff_ffff_ffff_ffffu64, p <= PROB_ONE;
    }
    let y: u128 = ((x as u128) * (p as u128) + (pth as u128) - 1) / (pth as u128);
    if y <= PROB_ONE as u128 {
        y as u64
    } else {
        PROB_ONE
    }
}

/// Finds the smallest odd code distance from 3 up to `max` whose logical
/// error rate is at most `required`.
pub fn plan_code_distance(a: u64, p: u64, pth: u64, required: u64, max: u64) -> (r: Result<u64, EstimationError>)
    requires
        p <= PROB_ONE,
        pth > 0,
        max < 0xffff_ffff_ffff_fff0,
    ensures
        match min_code_distance(a as nat, p as nat, pth as nat, required as nat, max as nat) {
            Some(d) => r == Ok::<u64, EstimationError>(d as u64),
            None => r == Err::<u64, EstimationError>(EstimationError::NoFeasibleCodeDistance),
        },
        r is Ok ==> 3 <= r->Ok_0 <= max
            && min_code_distance(a as nat, p as nat, pth as nat, required as nat, max as nat)
                == Some(r->Ok_0 as nat),
{
    proof {
        lemma_first_distance_bounds(a as nat, p as nat, pth as nat, required as nat, 3, max as nat);
    }
    let ghost (an, pn, tn, qn, mn) = (a as nat, p as nat, pth as nat, required as nat, max as nat);
    let x1 = suppress_exec(a, p, pth);
    let mut x = suppress_exec(x1, p, pth);
    let mut d: u64 = 3;
    proof {
        reveal_with_fuel(suppressed, 3);
    }
    while d <= max
        invariant
            p <= PROB_ONE,
            pth > 0,
            max < 0xffff_ffff_ffff_fff0,
            3 <= d,
            d <= max + 2 || d == 3,
            d % 2 == 1,
            x == logical_error_rate(an, pn, tn, d as nat),
            an == a, pn == p, tn == pth, qn == required, mn == max,
            min_code_distance(an, pn, tn, qn, mn) == first_distance_from(an, pn, tn, qn, d as nat, mn),
        decreases max + 2 - d,
    {
        if x <= required {
            return Ok(d);
        }
        proof {
            assert((d as nat + 3) / 2 == (d as nat + 1) / 2 + 1);
        }
        x = suppress_exec(x, p, pth);
        d = d + 2;
    }
    Err(EstimationError::NoFeasibleCodeDistance)
}

/// Computes the logical error rate at code distance `d`.
pub fn logical_error_rate_exec(a: u64, p: u64, pth: u64, d: u64) -> (r: u64)
    requires
        p <= PROB_ONE,
        pth > 0,
        d < 0xffff_ffff_ffff_fff0,
    ensures
        r == logical_error_rate(a as nat, p as nat, pth as nat, d as nat),
{
    let k: u64 = (d + 1) / 2;
    let mut x: u64 = a;
    let mut j: u64 = 0;
    while j < k
        invariant
            p <= PROB_ONE,
            pth > 0,
            j <= k,
            x == suppressed(a as nat, p as nat, pth as nat, j as nat),
        decreases k - j,
    {
        x = suppress_exec(x, p, pth);
        j = j + 1;
    }
    x
}

/// A larger error budget per logical qubit cycle never selects a larger code
/// distance: if a distance is found for `required1`, one no larger is found
/// for any `required2 >= required1`.
pub proof fn lemma_distance_monotone_in_budget(a: nat, p: nat, pth: nat, required1: nat, required2: nat, max: nat)
    requires
        required1 <= required2,
    ensures
        min_code_distance(a, p, pth, required1, max) is Some ==> {
            &&& min_code_distance(a, p, pth, required2, max) is Some
            &&& min_code_distance(a, p, pth, required2, max)->Some_0
                <= min_code_distance(a, p, pth, required1, max)->Some_0
        },
{
    lemma_first_distance_monotone(a, p, pth, required1, required2, 3, max);
}

proof fn lemma_first_distance_monotone(a: nat, p: nat, pth: nat, r1: nat, r2: nat, d: nat, max: nat)
    requires
        r1 <= r2,
    ensures
        first_distance_from(a, p, pth, r1, d, max) is Some ==> {
            &&& first_distance_from(a, p, pth, r2, d, max) is Some
            &&& first_distance_from(a, p, pth, r2, d, max)->Some_0
                <= first_distance_from(a, p, pth, r1, d, max)->Some_0
        },
    decreases max + 2 - d,
{
    if d <= max {
        lemma_first_distance_monotone(a, p, pth, r1, r2, d + 2, max);
        lemma_first_distance_bounds(a, p, pth, r1, d + 2, max);
    }
}

proof fn lemma_first_distance_bounds(a: nat, p: nat, pth: nat, r: nat, d: nat, max: nat)
    ensures
        first_distance_from(a, p, pth, r, d, max) is Some ==> {
            let e = first_distance_from(a, p, pth, r, d, max)->Some_0;
            &&& d <= e <= max
            &&& logical_error_rate(a, p, pth, e) <= r
        },
    decreases max + 2 - d,
{
    if d <= max {
        lemma_first_distance_bounds(a, p, pth, r, d + 2, max);
    }
}

/// Lowering the largest allowed code distance keeps the selected distance
/// when it is still allowed, and otherwise leaves no feasible distance.
pub proof fn lemma_distance_under_lower_cap(a: nat, p: nat, pth: nat, required: nat, max1: nat, max2: nat)
    requires
        max2 <= max1,
    ensures
        min_code_distance(a, p, pth, required, max2) == match min_code_distance(a, p, pth, required, max1) {
            Some(d) => if d <= max2 { Some(d) } else { None },
            None => None::<nat>,
        },
{
    lemma_first_distance_cap(a, p, pth, required, 3, max1, max2);
}

proof fn lemma_first_distance_cap(a: nat, p: nat, pth: nat, r: nat, d: nat, max1: nat, max2: nat)
    requires
        max2 <= max1,
    ensures
        first_distance_from(a, p, pth, r, d, max2) == match first_distance_from(a, p, pth, r, d, max1) {
            Some(e) => if e <= max2 { Some(e) } else { None },
            None => None::<nat>,
        },
    decreases max1 + 2 - d,
{
    if d <= max1 {
        lemma_first_distance_cap(a, p, pth, r, d + 2, max1, max2);
        lemma_first_distance_bounds(a, p, pth, r, d + 2, max1);
        if d > max2 {
            lemma_first_distance_bounds(a, p, pth, r, d, max1);
        }
    }
}

} // verus!

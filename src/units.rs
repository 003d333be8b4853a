//! Fixed-point probabilities.
use vstd::prelude::*;

verus! {

/// The probability 1 in the library's fixed-point unit of 10^-18.
pub const PROB_ONE: u64 = 1_000_000_000_000_000_000;

/// The product of two fixed-point probabilities, rounded up.
pub open spec fn mul_up(x: nat, y: nat) -> nat {
    ((x * y + PROB_ONE - 1) as nat) / (PROB_ONE as nat)
}

/// Multiplies two fixed-point values and rounds the product up.
pub fn prob_mul_up(x: u64, y: u64) -> (r: u64)
    requires
        x <= PROB_ONE,
        y <= PROB_ONE,
    ensures
        r == mul_up(x as nat, y as nat),
        r <= PROB_ONE,
{
    proof {
        assert(x * y <= PROB_ONE * PROB_ONE) by (nonlinear_arith)
            requires x <= PROB_ONE, y <= PROB_ONE;
    }
    let prod: u128 = (x as u128) * (y as u128);
    let q: u128 = (prod + (PROB_ONE as u128) - 1) / (PROB_ONE as u128);
    proof {
        assert(((x * y + PROB_ONE - 1) as nat) / (PROB_ONE as nat) <= PROB_ONE) by {
            lemma_div_bound((x * y + PROB_ONE - 1) as nat, PROB_ONE as nat);
        }
    }
    q as u64
}

proof fn lemma_div_bound(n: nat, d: nat)
    requires
        d > 0,
        n < d * d + d,
    ensures
        n / d <= d,
{
    assert(n / d <= d) by (nonlinear_arith)
        requires d > 0, n < d * d + d;
}

} // verus!

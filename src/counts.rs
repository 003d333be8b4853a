//! Logical operation counts of a program, and the quantities derived from them.
use vstd::prelude::*;
use vstd::arithmetic::power::pow;
use vstd::arithmetic::power2::{lemma2_to64, lemma_pow2, lemma_pow2_adds, lemma_pow2_unfold, pow2};

verus! {

/// The logical resources of a compiled program.
#[derive(Clone, Copy, Debug, PartialEq, Eq, Structural)]
pub struct LogicalCounts {
    pub num_qubits: u32,
    pub t_count: u32,
    pub rotation_count: u32,
    pub rotation_depth: u32,
    pub ccz_count: u32,
    pub ccix_count: u32,
    pub measurement_count: u32,
}

impl LogicalCounts {
    /// Rotations cannot be spread over more layers than there are rotations.
    pub open spec fn wf(&self) -> bool {
        self.rotation_depth <= self.rotation_count
    }
}

/// The smallest `s` whose square is at least `n`.
pub open spec fn is_ceil_sqrt(n: nat, s: nat) -> bool {
    s * s >= n && (s == 0 || (s - 1) * (s - 1) < n)
}

pub open spec fn ceil_sqrt(n: nat) -> nat {
    choose|s: nat| is_ceil_sqrt(n, s)
}

proof fn lemma_ceil_sqrt_unique(n: nat, s: nat, t: nat)
    requires
        is_ceil_sqrt(n, s),
        is_ceil_sqrt(n, t),
    ensures
        s == t,
{
    if s < t {
        assert(s * s <= (t - 1) * (t - 1)) by (nonlinear_arith)
            requires s <= t - 1, s < t;
    } else if t < s {
        assert(t * t <= (s - 1) * (s - 1)) by (nonlinear_arith)
            requires t <= s - 1, t < s;
    }
}

/// Rounds the square root of `n` up.
pub fn ceil_sqrt_exec(n: u64) -> (r: u64)
    requires
        n <= 1_099_511_627_776,
    ensures
        r == ceil_sqrt(n as nat),
        r <= 1_048_576,
{
    let mut s: u64 = 0;
    while s * s < n
        invariant
            n <= 1_099_511_627_776,
            s <= 1_048_576,
            s * s <= 1_099_511_627_776,
            s == 0 || (s - 1) * (s - 1) < n,
            s <= n,
        decreases n - s,
    {
        proof {
            assert(s < 1_048_576) by (nonlinear_arith)
                requires s * s < 1_099_511_627_776, s <= 1_048_576;
            assert((s + 1) * (s + 1) <= 1_099_511_627_776) by (nonlinear_arith)
                requires s < 1_048_576;
            assert(s < n) by (nonlinear_arith)
                requires s * s < n;
        }
        s = s + 1;
    }
    proof {
        assert(is_ceil_sqrt(n as nat, s as nat));
        let c = ceil_sqrt(n as nat);
        assert(is_ceil_sqrt(n as nat, c));
        lemma_ceil_sqrt_unique(n as nat, s as nat, c);
    }
    s
}

/// The base-2 logarithm of `n`, rounded up (0 for `n <= 1`).
pub open spec fn log2_ceil(n: nat) -> nat
    decreases n,
{
    if n <= 1 {
        0
    } else {
        1 + log2_ceil(((n + 1) / 2) as nat)
    }
}

proof fn lemma_log2_ceil_le(n: nat, m: nat)
    requires
        n <= pow2(m),
    ensures
        log2_ceil(n) <= m,
    decreases m,
{
    if n > 1 {
        if m == 0 {
            lemma_pow2(0);
            reveal(pow);
            assert(false);
        }
        lemma_pow2_unfold(m);
        lemma_log2_ceil_le(((n + 1) / 2) as nat, (m - 1) as nat);
    }
}

/// Rounds the base-2 logarithm of `n` up.
pub fn log2_ceil_exec(n: u128) -> (r: u64)
    ensures
        r == log2_ceil(n as nat),
        r <= 128,
{
    proof {
        lemma2_to64();
        lemma_pow2_adds(64, 64);
        assert(pow2(128) == 0x1_0000_0000_0000_0000 * 0x1_0000_0000_0000_0000);
        lemma_log2_ceil_le(n as nat, 128);
    }
    let mut v: u128 = n;
    let mut k: u64 = 0;
    while v > 1
        invariant
            log2_ceil(n as nat) == k + log2_ceil(v as nat),
            log2_ceil(n as nat) <= 128,
        decreases v,
    {
        v = v / 2 + v % 2;
        k = k + 1;
    }
    k
}

} // verus!

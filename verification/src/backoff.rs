use vstd::prelude::*;
use vstd::arithmetic::mul::lemma_mul_inequality;
use vstd::arithmetic::power2::{pow2, lemma_pow2_strictly_increases, lemma_pow2_unfold};

use crate::policy::RecoveryPolicy;

verus! {

/// The smaller of two naturals.
pub open spec fn min_nat(a: nat, b: nat) -> nat {
    if a <= b {
        a
    } else {
        b
    }
}

/// The backoff delay for `attempt`: `base * 2^attempt`, the product taken
/// without bound, clamped to `max`.
pub open spec fn backoff_delay(attempt: nat, base: nat, max: nat) -> nat {
    min_nat(base * pow2(attempt), max)
}

/// `2^exp`, or `None` where it does not fit in a `u64`.
fn checked_pow2(exp: u32) -> (r: Option<u64>)
    ensures
        r == (if pow2(exp as nat) <= u64::MAX {
            Some(pow2(exp as nat) as u64)
        } else {
            None
        }),
{
    let mut acc: u64 = 1;
    let mut i: u32 = 0;
    assert(pow2(0) == 1) by {
        vstd::arithmetic::power2::lemma2_to64();
    }
    while i < exp
        invariant
            i <= exp,
            acc as nat == pow2(i as nat),
        decreases exp - i,
    {
        proof {
            lemma_pow2_unfold((i + 1) as nat);
        }
        if acc > u64::MAX / 2 {
            proof {
                if i + 1 < exp {
                    lemma_pow2_strictly_increases((i + 1) as nat, exp as nat);
                }
            }
            return None;
        }
        acc = acc * 2;
        i = i + 1;
    }
    Some(acc)
}

/// `a * b`, or `u64::MAX` where the product does not fit.
fn saturating_mul(a: u64, b: u64) -> (r: u64)
    ensures
        r as nat == min_nat(a as nat * b as nat, u64::MAX as nat),
{
    match a.checked_mul(b) {
        Some(p) => p,
        None => u64::MAX,
    }
}

impl RecoveryPolicy {
    /// Compute an exponential backoff delay, in milliseconds, for a given
    /// attempt index.
    ///
    /// The delay grows as `base_ms * 2^attempt` and is clamped to `max_ms` so
    /// it never overflows or grows without bound. This is a pure helper: it does
    /// not sleep, leaving the choice of timer up to the caller.
    pub fn backoff_ms(attempt: u32, base_ms: u64, max_ms: u64) -> (delay: u64)
        ensures
            delay as nat == backoff_delay(attempt as nat, base_ms as nat, max_ms as nat),
    {
        let factor = checked_pow2(attempt);
        match factor {
            Some(f) => {
                let d = saturating_mul(base_ms, f);
                if d < max_ms {
                    d
                } else {
                    max_ms
                }
            },
            None => {
                if base_ms == 0 {
                    proof {
                        assert(0 * pow2(attempt as nat) == 0);
                    }
                    0
                } else {
                    proof {
                        lemma_mul_inequality(1, base_ms as int, pow2(attempt as nat) as int);
                    }
                    max_ms
                }
            },
        }
    }
}

/// The delay never exceeds `max`.
pub proof fn lemma_backoff_bounded(attempt: nat, base: nat, max: nat)
    ensures
        backoff_delay(attempt, base, max) <= max,
{
}

/// The delay never decreases as the attempt index grows.
pub proof fn lemma_backoff_monotonic(a1: nat, a2: nat, base: nat, max: nat)
    requires
        a1 <= a2,
    ensures
        backoff_delay(a1, base, max) <= backoff_delay(a2, base, max),
{
    if a1 < a2 {
        lemma_pow2_strictly_increases(a1, a2);
    }
    lemma_mul_inequality(pow2(a1) as int, pow2(a2) as int, base as int);
    assert(base * pow2(a1) <= base * pow2(a2)) by (nonlinear_arith)
        requires
            pow2(a1) * base <= pow2(a2) * base,
    ;
}

/// The delay is exactly `base * 2^attempt` up to the clamp and `max` from it
/// on; a zero base gives no delay at any attempt.
pub proof fn lemma_backoff_exact_below_max(attempt: nat, base: nat, max: nat)
    ensures
        base * pow2(attempt) <= max ==> backoff_delay(attempt, base, max) == base * pow2(attempt),
        base * pow2(attempt) >= max ==> backoff_delay(attempt, base, max) == max,
        base == 0 ==> backoff_delay(attempt, base, max) == 0,
{
}

} // verus!

//! Delays between retries: exponential growth under a cap, and full jitter.

use vstd::arithmetic::mul::lemma_mul_left_inequality;
use vstd::arithmetic::power2::{lemma_pow2_pos, lemma_pow2_strictly_increases, lemma_pow2_unfold, pow2};
use vstd::prelude::*;

verus! {

/// The longest wait before retry number `attempt`, counted from zero: the base
/// delay doubled once for each earlier attempt, and never more than the cap.
pub open spec fn backoff_ceiling(base: nat, cap: nat, attempt: nat) -> nat {
    if base * pow2(attempt) <= cap {
        base * pow2(attempt)
    } else {
        cap
    }
}

/// A delay drawn from `0..=ceiling` by reducing a sample that the caller drew
/// uniformly from all of `u64`.
pub open spec fn jittered(ceiling: nat, sample: nat) -> nat {
    sample % (ceiling + 1)
}

/// The ceiling grows with the attempt number until it reaches the cap.
pub proof fn lemma_backoff_monotonic(base: nat, cap: nat, earlier: nat, later: nat)
    requires
        earlier <= later,
    ensures
        backoff_ceiling(base, cap, earlier) <= backoff_ceiling(base, cap, later) <= cap,
{
    if base == 0 {
        assert(base * pow2(earlier) == 0 && base * pow2(later) == 0) by (nonlinear_arith)
            requires
                base == 0,
        ;
    } else if earlier < later {
        lemma_pow2_strictly_increases(earlier, later);
        lemma_mul_left_inequality(base as int, pow2(earlier) as int, pow2(later) as int);
    }
}

/// Computes `backoff_ceiling` without overflow, whatever the attempt number.
pub fn exponential_delay(base: u64, cap: u64, attempt: u32) -> (delay: u64)
    ensures
        delay == backoff_ceiling(base as nat, cap as nat, attempt as nat),
{
    if base == 0 {
        assert(0 * pow2(attempt as nat) == 0) by (nonlinear_arith);
        return 0;
    }
    proof {
        assert(pow2(0) == 1) by {
            vstd::arithmetic::power2::lemma2_to64();
        }
        assert(base * 1 == base) by (nonlinear_arith);
    }
    let mut delay: u64 = if base <= cap {
        base
    } else {
        cap
    };
    let mut i: u32 = 0;
    while i < attempt && delay < cap
        invariant
            i <= attempt,
            0 < base,
            delay == backoff_ceiling(base as nat, cap as nat, i as nat),
        decreases attempt - i,
    {
        proof {
            lemma_pow2_unfold((i + 1) as nat);
            assert(base * (2 * pow2(i as nat)) == 2 * (base * pow2(i as nat)))
                by (nonlinear_arith);
        }
        if delay > cap - delay {
            delay = cap;
        } else {
            delay = delay + delay;
        }
        i = i + 1;
    }
    proof {
        lemma_backoff_monotonic(base as nat, cap as nat, i as nat, attempt as nat);
    }
    delay
}

/// Full jitter: a delay between zero and `ceiling`, both included, picked by `sample`.
pub fn full_jitter(ceiling: u64, sample: u64) -> (delay: u64)
    ensures
        delay == jittered(ceiling as nat, sample as nat),
        delay <= ceiling,
{
    if ceiling == u64::MAX {
        proof {
            vstd::arithmetic::div_mod::lemma_small_mod(sample as nat, (ceiling + 1) as nat);
        }
        sample
    } else {
        sample % (ceiling + 1)
    }
}

/// The wait before retry number `attempt`: the exponential ceiling, reduced by full jitter.
pub fn jittered_delay(base: u64, cap: u64, attempt: u32, sample: u64) -> (delay: u64)
    ensures
        delay == jittered(backoff_ceiling(base as nat, cap as nat, attempt as nat), sample as nat),
        delay <= cap,
{
    let ceiling = exponential_delay(base, cap, attempt);
    proof {
        lemma_backoff_monotonic(base as nat, cap as nat, attempt as nat, attempt as nat);
    }
    full_jitter(ceiling, sample)
}

} // verus!

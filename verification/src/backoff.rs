//! Retry delays for a destination that keeps failing.
//!
//! The delay after the first failure is the policy's base delay. Every
//! further failure doubles it, until it reaches the policy's maximum, where it
//! stays. All delays are in milliseconds.

use vstd::prelude::*;

verus! {

/// The delay before the next attempt after `fail_count` failures in a row:
/// nothing after none, `base` after one, then twice the previous delay, and
/// never more than `cap`.
pub open spec fn retry_delay(base: nat, cap: nat, fail_count: nat) -> nat
    decreases fail_count,
{
    if fail_count == 0 {
        0
    } else if fail_count == 1 {
        if base <= cap {
            base
        } else {
            cap
        }
    } else {
        let prev = retry_delay(base, cap, (fail_count - 1) as nat);
        if 2 * prev <= cap {
            2 * prev
        } else {
            cap
        }
    }
}

/// No delay is longer than the maximum.
pub proof fn lemma_retry_delay_bounded(base: nat, cap: nat, fail_count: nat)
    ensures
        retry_delay(base, cap, fail_count) <= cap,
    decreases fail_count,
{
    if fail_count > 1 {
        lemma_retry_delay_bounded(base, cap, (fail_count - 1) as nat);
    }
}

/// One more failure never shortens the delay.
pub proof fn lemma_retry_delay_step(base: nat, cap: nat, fail_count: nat)
    ensures
        retry_delay(base, cap, fail_count) <= retry_delay(base, cap, fail_count + 1),
{
    lemma_retry_delay_bounded(base, cap, fail_count);
    if fail_count >= 1 {
        assert(retry_delay(base, cap, fail_count + 1) == {
            let prev = retry_delay(base, cap, fail_count);
            if 2 * prev <= cap {
                2 * prev
            } else {
                cap
            }
        });
    }
}

/// Consecutive failures give delays that never decrease.
pub proof fn lemma_retry_delay_monotonic(base: nat, cap: nat, fewer: nat, more: nat)
    requires
        fewer <= more,
    ensures
        retry_delay(base, cap, fewer) <= retry_delay(base, cap, more),
    decreases more - fewer,
{
    if fewer < more {
        lemma_retry_delay_monotonic(base, cap, fewer, (more - 1) as nat);
        lemma_retry_delay_step(base, cap, (more - 1) as nat);
    }
}

/// Once the delay has reached the maximum it stays there.
pub proof fn lemma_retry_delay_plateau(base: nat, cap: nat, reached: nat, later: nat)
    requires
        1 <= reached <= later,
        retry_delay(base, cap, reached) == cap,
    ensures
        retry_delay(base, cap, later) == cap,
{
    lemma_retry_delay_monotonic(base, cap, reached, later);
    lemma_retry_delay_bounded(base, cap, later);
}

/// A delay of zero after a failure stays zero: the base or the maximum is zero.
pub proof fn lemma_retry_delay_zero(base: nat, cap: nat, reached: nat, later: nat)
    requires
        1 <= reached <= later,
        retry_delay(base, cap, reached) == 0,
    ensures
        retry_delay(base, cap, later) == 0,
    decreases later - reached,
{
    if reached < later {
        lemma_retry_delay_zero(base, cap, reached, (later - 1) as nat);
    }
}

/// How long a worker waits between attempts on a failing destination.
#[derive(Clone, Copy, Debug, PartialEq, Eq, Structural)]
pub struct RetryPolicy {
    /// Delay after the first failure, in milliseconds.
    pub base_delay_ms: u64,
    /// The longest delay there is, in milliseconds.
    pub max_delay_ms: u64,
}

impl RetryPolicy {
    /// A policy with the given first delay and maximum.
    pub fn new(base_delay_ms: u64, max_delay_ms: u64) -> (policy: RetryPolicy)
        ensures
            policy.base_delay_ms == base_delay_ms,
            policy.max_delay_ms == max_delay_ms,
    {
        RetryPolicy { base_delay_ms, max_delay_ms }
    }

    /// The delay of this policy after `fail_count` failures in a row.
    pub open spec fn delay_spec(self, fail_count: nat) -> nat {
        retry_delay(self.base_delay_ms as nat, self.max_delay_ms as nat, fail_count)
    }

    /// The delay before the next attempt, in milliseconds.
    pub fn delay(&self, fail_count: u32) -> (delay_ms: u64)
        ensures
            delay_ms == self.delay_spec(fail_count as nat),
            delay_ms <= self.max_delay_ms,
    {
        let cap: u64 = self.max_delay_ms;
        proof {
            lemma_retry_delay_bounded(self.base_delay_ms as nat, cap as nat, fail_count as nat);
        }
        if fail_count == 0 {
            return 0;
        }
        let mut delay_ms: u64 = if self.base_delay_ms <= cap {
            self.base_delay_ms
        } else {
            cap
        };
        let mut failures: u32 = 1;
        while failures < fail_count && 0 < delay_ms && delay_ms < cap
            invariant
                1 <= failures <= fail_count,
                cap == self.max_delay_ms,
                delay_ms == self.delay_spec(failures as nat),
                delay_ms <= cap,
            decreases fail_count - failures,
        {
            delay_ms = if delay_ms <= cap / 2 {
                2 * delay_ms
            } else {
                cap
            };
            failures = failures + 1;
        }
        proof {
            if failures < fail_count {
                if delay_ms == 0 {
                    lemma_retry_delay_zero(
                        self.base_delay_ms as nat,
                        cap as nat,
                        failures as nat,
                        fail_count as nat,
                    );
                } else {
                    lemma_retry_delay_plateau(
                        self.base_delay_ms as nat,
                        cap as nat,
                        failures as nat,
                        fail_count as nat,
                    );
                }
            }
        }
        delay_ms
    }
}

} // verus!

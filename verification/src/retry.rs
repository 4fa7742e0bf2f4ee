//! Retry strategy: exponential backoff with a cap.
//!
//! The backoff before retry number `n` (1-indexed) is
//! `min(base_backoff_ms * 2^(n-1), max_backoff_ms)`.  A retry is declined
//! once `n` exceeds `max_retries` or the error is not `Retryable`.

use vstd::prelude::*;
use vstd::arithmetic::power2::{lemma_pow2_pos, lemma_pow2_unfold, pow2};
use crate::error::ErrorKind;

verus! {

/// Parameters of the retry strategy.
#[derive(Debug, Clone, Copy, PartialEq, Eq, Structural)]
pub struct RetryConfig {
    /// Greatest number of retries after the first attempt (0 to 100).
    pub max_retries: u32,
    /// Backoff before the first retry, in milliseconds.
    pub base_backoff_ms: u64,
    /// Upper bound on any single backoff, in milliseconds.
    pub max_backoff_ms: u64,
}

/// `min(base * 2^(n-1), max)`, the backoff before retry `n` (1-indexed),
/// with the doubling saturating at `u64::MAX`.
pub open spec fn spec_backoff_ms(base: u64, max: u64, n: nat) -> u64
    decreases n,
{
    if n <= 1 {
        if base <= max {
            base
        } else {
            max
        }
    } else {
        let prev = spec_backoff_ms(base, max, (n - 1) as nat);
        if prev >= max {
            max
        } else if prev * 2 <= max {
            (prev * 2) as u64
        } else {
            max
        }
    }
}

/// Sum of the backoffs before retries `1..=n`, saturating at `u64::MAX`:
/// the least time a batch that was retried `n` times has waited.
pub open spec fn spec_total_backoff_ms(base: u64, max: u64, n: nat) -> u64
    decreases n,
{
    if n == 0 {
        0
    } else {
        crate::metrics::sat_add(
            spec_total_backoff_ms(base, max, (n - 1) as nat),
            spec_backoff_ms(base, max, n),
        )
    }
}

/// The backoff before retry `n` is exactly `min(base * 2^(n-1), max)`:
/// the iterated doubling the implementation performs computes the closed
/// form of the exponential-backoff-with-cap schedule.
pub proof fn lemma_backoff_closed_form(base: u64, max: u64, n: nat)
    requires
        n >= 1,
    ensures
        spec_backoff_ms(base, max, n) as int == (if base * pow2((n - 1) as nat) <= max {
            base * pow2((n - 1) as nat)
        } else {
            max as int
        }),
    decreases n,
{
    lemma_pow2_pos((n - 1) as nat);
    if n == 1 {
        assert(pow2(0) == 1) by {
            vstd::arithmetic::power2::lemma2_to64();
        }
    } else {
        lemma_backoff_closed_form(base, max, (n - 1) as nat);
        lemma_pow2_pos((n - 2) as nat);
        lemma_pow2_unfold((n - 1) as nat);
        let p_prev = base * pow2((n - 2) as nat);
        let p = base * pow2((n - 1) as nat);
        assert(p == 2 * p_prev) by (nonlinear_arith)
            requires
                pow2((n - 1) as nat) == 2 * pow2((n - 2) as nat),
                p == base * pow2((n - 1) as nat),
                p_prev == base * pow2((n - 2) as nat),
        ;
        let prev = spec_backoff_ms(base, max, (n - 1) as nat);
        if prev >= max {
            assert(p_prev >= max);
            assert(p >= max);
        }
    }
}

impl RetryConfig {
    /// Strategy with no retries at all.
    pub fn none() -> (c: RetryConfig)
        ensures
            c.max_retries == 0,
    {
        RetryConfig { max_retries: 0, base_backoff_ms: 0, max_backoff_ms: 0 }
    }

    /// Backoff in milliseconds before retry `n` (1-indexed):
    /// `min(base_backoff_ms * 2^(n-1), max_backoff_ms)`.
    pub fn backoff_ms(&self, n: u32) -> (b: u64)
        requires
            n >= 1,
        ensures
            b == spec_backoff_ms(self.base_backoff_ms, self.max_backoff_ms, n as nat),
            b <= self.max_backoff_ms || b == self.base_backoff_ms,
    {
        let mut i: u32 = 1;
        let mut b: u64 = if self.base_backoff_ms <= self.max_backoff_ms {
            self.base_backoff_ms
        } else {
            self.max_backoff_ms
        };
        while i < n
            invariant
                1 <= i <= n,
                b == spec_backoff_ms(self.base_backoff_ms, self.max_backoff_ms, i as nat),
                b <= self.max_backoff_ms || b == self.base_backoff_ms,
            decreases n - i,
        {
            if b >= self.max_backoff_ms {
                b = self.max_backoff_ms;
            } else if b <= self.max_backoff_ms / 2 {
                b = b * 2;
            } else {
                b = self.max_backoff_ms;
            }
            i = i + 1;
        }
        b
    }

    /// Whether retry `n` (1-indexed) should be attempted for an error of
    /// the given kind: only `Retryable` errors, and only while `n` has not
    /// exceeded `max_retries`.
    pub fn should_retry(&self, n: u32, kind: ErrorKind) -> (r: bool)
        ensures
            r == (n <= self.max_retries && kind == ErrorKind::Retryable),
    {
        n <= self.max_retries && matches!(kind, ErrorKind::Retryable)
    }
}

impl Default for RetryConfig {
    /// Three retries, one second base backoff, thirty seconds cap.
    fn default() -> (c: RetryConfig)
        ensures
            c.max_retries == 3,
            c.base_backoff_ms == 1000,
            c.max_backoff_ms == 30000,
    {
        RetryConfig { max_retries: 3, base_backoff_ms: 1000, max_backoff_ms: 30000 }
    }
}

} // verus!

//! The retry policy of a client: exponential backoff with bounded parameters.
//!
//! The interval grows from `initial_interval_ms` by a factor of 1.5 up to
//! `max_interval_ms`, each handed-out interval randomized by half of it either
//! way, and no interval is handed out once `max_elapsed_ms` have passed since
//! the policy was built or restarted. Every parameter is at most
//! [`MAX_POLICY_MS`], which keeps the arithmetic of the backoff crate on
//! durations far from overflow.
use vstd::prelude::*;
use std::time::Duration;
use crate::error::{ErrorView, StabilityAIError};

verus! {

/// Bound on every duration of a policy: thirty days, in milliseconds.
pub const MAX_POLICY_MS: u64 = 2_592_000_000;

/// Why a policy is refused.
pub const POLICY_OUT_OF_BOUNDS: &'static str = "backoff durations must not exceed thirty days";

#[derive(Debug)]
pub struct RetryPolicy {
    initial_interval_ms: u64,
    max_interval_ms: u64,
    max_elapsed_ms: Option<u64>,
    backoff: backoff::ExponentialBackoff,
}

/// Parameters of a policy that stay within [`MAX_POLICY_MS`].
pub open spec fn policy_in_bounds(
    initial_interval_ms: u64,
    max_interval_ms: u64,
    max_elapsed_ms: Option<u64>,
) -> bool {
    initial_interval_ms <= MAX_POLICY_MS && max_interval_ms <= MAX_POLICY_MS && match max_elapsed_ms {
        Some(m) => m <= MAX_POLICY_MS,
        None => true,
    }
}

/// Relies on `ExponentialBackoffBuilder` of the backoff crate: `new`, the
/// three `with_*` setters and `build` make a policy with these durations and
/// the crate's default factor (1.5) and randomization (one half); `build` only
/// stores them and reads the clock.
#[verifier::external_body]
fn build_backoff(
    initial_interval_ms: u64,
    max_interval_ms: u64,
    max_elapsed_ms: Option<u64>,
) -> (r: backoff::ExponentialBackoff) {
    backoff::ExponentialBackoffBuilder::new()
        .with_initial_interval(Duration::from_millis(initial_interval_ms))
        .with_max_interval(Duration::from_millis(max_interval_ms))
        .with_max_elapsed_time(max_elapsed_ms.map(Duration::from_millis))
        .build()
}

/// Relies on `Backoff::next_backoff` of `ExponentialBackoff`: the interval to
/// wait before the next attempt, or `None` once the elapsed-time budget is
/// spent. It panics only when adding the elapsed time to an interval
/// overflows a `Duration`, which the bounds on the policy rule out. The
/// interval is randomized and the budget is measured on the clock, so nothing
/// is promised about which of the two comes back.
#[verifier::external_body]
fn next_backoff(policy: &mut RetryPolicy) -> (r: Option<Duration>)
    requires
        policy_in_bounds(
            old(policy).initial_interval_ms,
            old(policy).max_interval_ms,
            old(policy).max_elapsed_ms,
        ),
    ensures
        final(policy).initial_interval_ms == old(policy).initial_interval_ms,
        final(policy).max_interval_ms == old(policy).max_interval_ms,
        final(policy).max_elapsed_ms == old(policy).max_elapsed_ms,
{
    backoff::backoff::Backoff::next_backoff(&mut policy.backoff)
}

/// Relies on `Backoff::reset` of `ExponentialBackoff`: the interval goes back
/// to the initial one and the elapsed-time budget starts anew.
#[verifier::external_body]
fn reset_backoff(policy: &mut RetryPolicy)
    ensures
        final(policy).initial_interval_ms == old(policy).initial_interval_ms,
        final(policy).max_interval_ms == old(policy).max_interval_ms,
        final(policy).max_elapsed_ms == old(policy).max_elapsed_ms,
{
    backoff::backoff::Backoff::reset(&mut policy.backoff)
}

/// Relies on `Clone` of `ExponentialBackoff<SystemClock>`: it copies every
/// field, and the clock is an empty struct.
#[verifier::external_body]
fn clone_backoff(b: &backoff::ExponentialBackoff) -> (r: backoff::ExponentialBackoff)
    ensures
        r == *b,
{
    b.clone()
}

impl RetryPolicy {
    /// The parameters are within bounds.
    #[verifier::type_invariant]
    spec fn inv(&self) -> bool {
        policy_in_bounds(self.initial_interval_ms, self.max_interval_ms, self.max_elapsed_ms)
    }

    pub closed spec fn initial_interval_ms(&self) -> u64 {
        self.initial_interval_ms
    }

    pub closed spec fn max_interval_ms(&self) -> u64 {
        self.max_interval_ms
    }

    pub closed spec fn max_elapsed_ms(&self) -> Option<u64> {
        self.max_elapsed_ms
    }

    /// A policy with these durations, in milliseconds (`None`: no budget on
    /// the elapsed time); refused when one of them exceeds [`MAX_POLICY_MS`].
    pub fn new(initial_interval_ms: u64, max_interval_ms: u64, max_elapsed_ms: Option<u64>) -> (r:
        Result<RetryPolicy, StabilityAIError>)
        ensures
            policy_in_bounds(initial_interval_ms, max_interval_ms, max_elapsed_ms) ==> (r matches Ok(
                p,
            ) && p.initial_interval_ms() == initial_interval_ms && p.max_interval_ms()
                == max_interval_ms && p.max_elapsed_ms() == max_elapsed_ms),
            !policy_in_bounds(initial_interval_ms, max_interval_ms, max_elapsed_ms) ==> (r matches Err(
                e,
            ) && e@ == ErrorView::InvalidArgument(POLICY_OUT_OF_BOUNDS@)),
    {
        let elapsed_ok = match max_elapsed_ms {
            Some(m) => m <= MAX_POLICY_MS,
            None => true,
        };
        if initial_interval_ms <= MAX_POLICY_MS && max_interval_ms <= MAX_POLICY_MS && elapsed_ok {
            Ok(
                RetryPolicy {
                    initial_interval_ms,
                    max_interval_ms,
                    max_elapsed_ms,
                    backoff: build_backoff(initial_interval_ms, max_interval_ms, max_elapsed_ms),
                },
            )
        } else {
            Err(StabilityAIError::InvalidArgument(String::from_str(POLICY_OUT_OF_BOUNDS)))
        }
    }

    /// The default policy: 500 ms initial interval, 60 s cap, 15 min budget.
    pub fn standard() -> (r: RetryPolicy)
        ensures
            r.initial_interval_ms() == 500,
            r.max_interval_ms() == 60_000,
            r.max_elapsed_ms() == Some(900_000u64),
    {
        RetryPolicy {
            initial_interval_ms: 500,
            max_interval_ms: 60_000,
            max_elapsed_ms: Some(900_000),
            backoff: build_backoff(500, 60_000, Some(900_000)),
        }
    }

    /// An independent copy: later calls on either do not affect the other.
    pub fn duplicate(&self) -> (r: RetryPolicy)
        ensures
            r == *self,
    {
        proof {
            use_type_invariant(self);
        }
        RetryPolicy {
            initial_interval_ms: self.initial_interval_ms,
            max_interval_ms: self.max_interval_ms,
            max_elapsed_ms: self.max_elapsed_ms,
            backoff: clone_backoff(&self.backoff),
        }
    }

    /// Starts the policy anew: initial interval, and a fresh elapsed-time budget.
    pub fn restart(&mut self)
        ensures
            final(self).initial_interval_ms() == old(self).initial_interval_ms(),
            final(self).max_interval_ms() == old(self).max_interval_ms(),
            final(self).max_elapsed_ms() == old(self).max_elapsed_ms(),
    {
        reset_backoff(self);
    }

    /// The interval to wait before the next attempt, or `None` once the
    /// elapsed-time budget is spent.
    pub fn next_interval(&mut self) -> (r: Option<Duration>)
        ensures
            final(self).initial_interval_ms() == old(self).initial_interval_ms(),
            final(self).max_interval_ms() == old(self).max_interval_ms(),
            final(self).max_elapsed_ms() == old(self).max_elapsed_ms(),
    {
        proof {
            use_type_invariant(&*self);
        }
        next_backoff(self)
    }
}

impl Clone for RetryPolicy {
    fn clone(&self) -> (r: RetryPolicy)
        ensures
            r == *self,
    {
        self.duplicate()
    }
}

} // verus!

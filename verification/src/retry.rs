//! A bounded-retry policy.
//!
//! Connecting to and pairing with a freshly discovered device is retried
//! a fixed number of times.  The policy makes the retry count an explicit
//! value: the shell performs the attempt, reports a failure here, and is
//! told whether to try again or give up.

use vstd::prelude::*;

verus! {

/// How many extra attempts connect and pair are given.
pub const CONNECT_RETRIES: u32 = 2;

/// What to do after a failed attempt.
#[derive(Clone, Copy, Debug, PartialEq, Eq, Structural)]
pub enum RetryDecision {
    TryAgain,
    GiveUp,
}

/// A bounded-retry policy: after the first attempt, at most `max_retries`
/// further attempts are granted.
#[derive(Clone, Copy, Debug, PartialEq, Eq, Structural)]
pub struct RetryPolicy {
    pub max_retries: u32,
    pub failures: u32,
}

impl RetryPolicy {
    /// Failures recorded never exceed the granted retries.
    pub open spec fn wf(&self) -> bool {
        self.failures <= self.max_retries
    }

    /// A fresh policy with the full retry budget.
    pub fn new(max_retries: u32) -> (r: RetryPolicy)
        ensures
            r.wf(),
            r.max_retries == max_retries,
            r.failures == 0,
    {
        RetryPolicy { max_retries, failures: 0 }
    }

    /// Records one failed attempt: grants another try while retries
    /// remain, and gives up — leaving the count where it is — once the
    /// budget is spent.  Over any run, `TryAgain` is returned at most
    /// `max_retries` times, since each one consumes one unit of budget.
    pub fn on_failure(&mut self) -> (d: RetryDecision)
        requires
            old(self).wf(),
        ensures
            final(self).wf(),
            final(self).max_retries == old(self).max_retries,
            if old(self).failures < old(self).max_retries {
                d is TryAgain && final(self).failures == old(self).failures + 1
            } else {
                d is GiveUp && final(self).failures == old(self).failures
            },
    {
        if self.failures < self.max_retries {
            self.failures = self.failures + 1;
            RetryDecision::TryAgain
        } else {
            RetryDecision::GiveUp
        }
    }
}

} // verus!

//! Bounded retry with a fixed delay, shared by every call that goes over the
//! network: the caller makes an attempt, reports a failure here, and is told
//! whether to wait and try again or to give up.
use vstd::prelude::*;

verus! {

/// Seconds to wait between two attempts.
pub const RETRY_DELAY_SECS: u64 = 1;

/// What to do after a failed attempt.
#[derive(Clone, Copy, Debug, PartialEq, Eq, Structural)]
pub enum RetryStep {
    /// Wait `secs` seconds, then make another attempt.
    Wait { secs: u64 },
    /// No attempt is left: the call as a whole has failed.
    GiveUp,
}

/// The account of one retried call: how many retries it may make after the
/// first attempt, and how many failures were answered with a retry so far.
#[derive(Clone, Copy, Debug, PartialEq, Eq, Structural)]
pub struct Retry {
    pub retries: u32,
    pub failures: u32,
}

impl Retry {
    /// The number of attempts that a call with this account may make in all.
    pub open spec fn attempts_allowed(self) -> nat {
        self.retries as nat + 1
    }

    /// The account after one more failed attempt, and the answer to it.
    pub open spec fn after_failure(self) -> (Retry, RetryStep) {
        if self.failures < self.retries {
            (
                Retry { retries: self.retries, failures: (self.failures + 1) as u32 },
                RetryStep::Wait { secs: RETRY_DELAY_SECS },
            )
        } else {
            (self, RetryStep::GiveUp)
        }
    }

    /// The account after `k` failed attempts in a row.
    pub open spec fn after_failures(self, k: nat) -> Retry
        decreases k,
    {
        if k == 0 {
            self
        } else {
            self.after_failures((k - 1) as nat).after_failure().0
        }
    }

    /// The answer to the `k`-th failed attempt in a row, counted from 1.
    pub open spec fn answer_to_failure(self, k: nat) -> RetryStep
        recommends
            k >= 1,
    {
        self.after_failures((k - 1) as nat).after_failure().1
    }

    /// An account that allows `retries` retries after the first attempt.
    pub fn new(retries: u32) -> (r: Retry)
        ensures
            r == (Retry { retries, failures: 0 }),
    {
        Retry { retries, failures: 0 }
    }

    /// Records a failed attempt and says what to do next.
    pub fn failed(&mut self) -> (step: RetryStep)
        ensures
            (*final(self), step) == old(self).after_failure(),
    {
        if self.failures < self.retries {
            self.failures = self.failures + 1;
            RetryStep::Wait { secs: RETRY_DELAY_SECS }
        } else {
            RetryStep::GiveUp
        }
    }
}

/// A call whose every attempt fails is retried exactly `retries` times: each
/// of the first `retries` failures is answered with a wait of the fixed delay,
/// and the failure of attempt `retries + 1` with giving up. So the call ends
/// after exactly `attempts_allowed()` attempts, whatever the bound.
pub proof fn lemma_retry_bound(retries: u32, k: nat)
    requires
        k >= 1,
    ensures
        k <= retries ==> (Retry { retries, failures: 0 }).answer_to_failure(k) == (RetryStep::Wait {
            secs: RETRY_DELAY_SECS,
        }),
        k > retries ==> (Retry { retries, failures: 0 }).answer_to_failure(k)
            == RetryStep::GiveUp,
        (Retry { retries, failures: 0 }).answer_to_failure(
            (Retry { retries, failures: 0 }).attempts_allowed(),
        ) == RetryStep::GiveUp,
{
    let start = Retry { retries, failures: 0 };
    lemma_failures_counted(start, (k - 1) as nat);
    lemma_failures_counted(start, retries as nat);
}

/// After `k` failures in a row a fresh account has counted `k` of them, up to
/// its bound.
proof fn lemma_failures_counted(start: Retry, k: nat)
    requires
        start.failures == 0,
    ensures
        start.after_failures(k).retries == start.retries,
        start.after_failures(k).failures == if k <= start.retries {
            k
        } else {
            start.retries as nat
        },
    decreases k,
{
    if k > 0 {
        lemma_failures_counted(start, (k - 1) as nat);
    }
}

} // verus!

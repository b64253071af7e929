//! The retry discipline for zome calls that may not yet give the expected
//! result: up to ten attempts, two seconds apart.
//!
//! The caller performs each attempt (a zome call, which awaits) and each
//! pause; this module decides, after every attempt, what comes next.

use vstd::prelude::*;

verus! {

/// How many attempts a retried call makes at most.
pub const MAX_ATTEMPTS: u32 = 10;

/// How long to wait after an attempt that did not succeed, in milliseconds.
pub const RETRY_DELAY_MS: u64 = 2000;

/// What to do after an attempt.
#[derive(Debug, PartialEq, Eq)]
pub enum RetryStep<T> {
    /// The attempt succeeded: return its result.
    Done(T),
    /// The attempt failed: wait, then attempt again.
    Wait { millis: u64 },
    /// The last allowed attempt failed: wait, then give up.
    GiveUp { millis: u64 },
}

/// The decision after attempt number `attempts_before + 1`, whose outcome is
/// `outcome` (`Some` with the result when it succeeded).
pub open spec fn retry_step<T>(attempts_before: nat, outcome: Option<T>) -> RetryStep<T> {
    match outcome {
        Some(v) => RetryStep::Done(v),
        None => if attempts_before + 1 < MAX_ATTEMPTS {
            RetryStep::Wait { millis: RETRY_DELAY_MS }
        } else {
            RetryStep::GiveUp { millis: RETRY_DELAY_MS }
        },
    }
}

/// How many attempts a retried call has made.
pub struct RetryState {
    attempts: u32,
}

impl RetryState {
    /// The number of attempts made so far.
    pub closed spec fn attempts(&self) -> nat {
        self.attempts as nat
    }

    /// A retried call before its first attempt.
    pub fn new() -> (res: RetryState)
        ensures
            res.attempts() == 0,
    {
        RetryState { attempts: 0 }
    }

    /// Whether another attempt may be made.
    pub fn may_attempt(&self) -> (res: bool)
        ensures
            res == (self.attempts() < MAX_ATTEMPTS),
    {
        self.attempts < MAX_ATTEMPTS
    }

    /// Records the outcome of one more attempt and says what to do next.
    pub fn record<T>(&mut self, outcome: Option<T>) -> (res: RetryStep<T>)
        requires
            old(self).attempts() < MAX_ATTEMPTS,
        ensures
            final(self).attempts() == old(self).attempts() + 1,
            res == retry_step(old(self).attempts(), outcome),
    {
        self.attempts = self.attempts + 1;
        match outcome {
            Some(v) => RetryStep::Done(v),
            None => if self.attempts < MAX_ATTEMPTS {
                RetryStep::Wait { millis: RETRY_DELAY_MS }
            } else {
                RetryStep::GiveUp { millis: RETRY_DELAY_MS }
            },
        }
    }
}

/// How a retried call ends when the attempts, starting after
/// `attempts_before` earlier ones, have the outcomes `outcomes`: its result,
/// how many attempts it made, and how long it waited in all; `None` when
/// `outcomes` runs out before the call ends.
pub open spec fn retry_run<T>(attempts_before: nat, outcomes: Seq<Option<T>>) -> Option<(Result<T, ()>, nat, nat)>
    decreases outcomes.len(),
{
    if attempts_before >= MAX_ATTEMPTS || outcomes.len() == 0 {
        None
    } else {
        match retry_step(attempts_before, outcomes[0]) {
            RetryStep::Done(v) => Some((Ok(v), 1, 0)),
            RetryStep::GiveUp { millis } => Some((Err(()), 1, millis as nat)),
            RetryStep::Wait { millis } => match retry_run(attempts_before + 1, outcomes.skip(1)) {
                Some((r, calls, waited)) => Some((r, calls + 1, (waited + millis) as nat)),
                None => None,
            },
        }
    }
}

/// Whether none of the first `n` outcomes is a success.
pub open spec fn no_success_within<T>(outcomes: Seq<Option<T>>, n: nat) -> bool {
    forall|j: int| 0 <= j < n && j < outcomes.len() ==> (#[trigger] outcomes[j]) is None
}

/// What a retried call comes to, from its first attempt on: it returns the
/// result of the first successful attempt when one of the first ten
/// succeeds, after as many attempts and two seconds of waiting for each
/// failed one; it gives up with `Err` after ten failed attempts and twenty
/// seconds of waiting; it makes no attempt beyond the tenth.
pub proof fn law_retry_outcome<T>(outcomes: Seq<Option<T>>)
    ensures
        match retry_run(0, outcomes) {
            Some((Ok(v), calls, waited)) => {
                &&& 1 <= calls <= MAX_ATTEMPTS
                &&& calls <= outcomes.len()
                &&& outcomes[calls - 1] == Some(v)
                &&& no_success_within(outcomes, (calls - 1) as nat)
                &&& waited == (calls - 1) * RETRY_DELAY_MS
            },
            Some((Err(()), calls, waited)) => {
                &&& calls == MAX_ATTEMPTS
                &&& outcomes.len() >= MAX_ATTEMPTS
                &&& no_success_within(outcomes, MAX_ATTEMPTS as nat)
                &&& waited == MAX_ATTEMPTS * RETRY_DELAY_MS
            },
            None => outcomes.len() < MAX_ATTEMPTS && no_success_within(outcomes, outcomes.len()),
        },
{
    lemma_retry_run(0, outcomes);
}

proof fn lemma_retry_run<T>(a: nat, outcomes: Seq<Option<T>>)
    requires
        a < MAX_ATTEMPTS,
    ensures
        match retry_run(a, outcomes) {
            Some((Ok(v), calls, waited)) => {
                &&& 1 <= calls <= MAX_ATTEMPTS - a
                &&& calls <= outcomes.len()
                &&& outcomes[calls - 1] == Some(v)
                &&& no_success_within(outcomes, (calls - 1) as nat)
                &&& waited == (calls - 1) * RETRY_DELAY_MS
            },
            Some((Err(()), calls, waited)) => {
                &&& calls == MAX_ATTEMPTS - a
                &&& outcomes.len() >= MAX_ATTEMPTS - a
                &&& no_success_within(outcomes, (MAX_ATTEMPTS - a) as nat)
                &&& waited == (MAX_ATTEMPTS - a) * RETRY_DELAY_MS
            },
            None => outcomes.len() < MAX_ATTEMPTS - a && no_success_within(outcomes, outcomes.len()),
        },
    decreases outcomes.len(),
{
    if outcomes.len() > 0 {
        match outcomes[0] {
            Some(v) => {},
            None => {
                if a + 1 < MAX_ATTEMPTS {
                    let rest = outcomes.skip(1);
                    lemma_retry_run(a + 1, rest);
                    assert forall|j: int| 1 <= j < outcomes.len() implies outcomes[j] == rest[j - 1] by {}
                    match retry_run(a + 1, rest) {
                        Some((Ok(v), calls, waited)) => {
                            assert(outcomes[calls as int] == rest[calls - 1]);
                            assert forall|j: int| 0 <= j < calls && j < outcomes.len() implies (#[trigger] outcomes[j]) is None by {
                                if j > 0 {
                                    assert(rest[j - 1] is None);
                                }
                            }
                        },
                        Some((Err(()), calls, waited)) => {
                            assert forall|j: int| 0 <= j < MAX_ATTEMPTS - a && j < outcomes.len() implies (#[trigger] outcomes[j]) is None by {
                                if j > 0 {
                                    assert(rest[j - 1] is None);
                                }
                            }
                        },
                        None => {
                            assert forall|j: int| 0 <= j < outcomes.len() implies (#[trigger] outcomes[j]) is None by {
                                if j > 0 {
                                    assert(rest[j - 1] is None);
                                }
                            }
                        },
                    }
                }
            },
        }
    }
}

} // verus!

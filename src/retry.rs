use vstd::prelude::*;

verus! {

/// How often a fallible outside operation is attempted, and how long the
/// caller waits between two attempts.
#[derive(Clone, Copy, Debug, PartialEq, Eq, Structural)]
pub struct RetryPolicy {
    pub max_attempts: u32,
    pub delay_ms: u64,
}

impl RetryPolicy {
    pub open spec fn wf(self) -> bool {
        self.max_attempts >= 1
    }

    /// File copies may meet a destination that is briefly locked.
    pub fn file_copy() -> (r: RetryPolicy)
        ensures
            r.max_attempts == 10,
            r.delay_ms == 100,
            r.wf(),
    {
        RetryPolicy { max_attempts: 10, delay_ms: 100 }
    }

    pub fn network_fetch() -> (r: RetryPolicy)
        ensures
            r.max_attempts == 3,
            r.delay_ms == 1000,
            r.wf(),
    {
        RetryPolicy { max_attempts: 3, delay_ms: 1000 }
    }

    pub fn integrity_change() -> (r: RetryPolicy)
        ensures
            r.max_attempts == 3,
            r.delay_ms == 1000,
            r.wf(),
    {
        RetryPolicy { max_attempts: 3, delay_ms: 1000 }
    }

    /// Looking up the path of the running executable.
    pub fn self_lookup() -> (r: RetryPolicy)
        ensures
            r.max_attempts == 3,
            r.delay_ms == 50,
            r.wf(),
    {
        RetryPolicy { max_attempts: 3, delay_ms: 50 }
    }
}

/// What the caller does after reporting the outcome of one attempt.
#[derive(Clone, Debug, PartialEq, Eq)]
pub enum RetryStep<T, E> {
    /// The attempt succeeded with this value.
    Succeeded(T),
    /// The attempt failed; wait this many milliseconds, then attempt again.
    RetryAfter(u64),
    /// The attempt budget is spent; `last` is the cause of the final failure.
    Exhausted { attempts: u32, last: E },
}

/// The attempts made so far by one sequential run of an operation.
#[derive(Clone, Copy, Debug, PartialEq, Eq, Structural)]
pub struct RetryState {
    pub attempts: u32,
}

pub open spec fn state_wf(policy: RetryPolicy, state: RetryState) -> bool {
    policy.wf() && state.attempts < policy.max_attempts
}

/// The decision taken on the outcome of the attempt that follows `attempts`
/// earlier ones.
pub open spec fn decide<T, E>(policy: RetryPolicy, attempts: nat, outcome: Result<T, E>) -> RetryStep<T, E> {
    match outcome {
        Ok(v) => RetryStep::Succeeded(v),
        Err(e) => if attempts + 1 >= policy.max_attempts {
            RetryStep::Exhausted { attempts: (attempts + 1) as u32, last: e }
        } else {
            RetryStep::RetryAfter(policy.delay_ms)
        },
    }
}

/// The number of attempts made when every attempt fails, counting on from
/// `made` attempts already made.
pub open spec fn attempts_when_failing(policy: RetryPolicy, made: nat) -> nat
    decreases policy.max_attempts - made,
{
    if made + 1 >= policy.max_attempts {
        made + 1
    } else {
        attempts_when_failing(policy, made + 1)
    }
}

impl RetryState {
    pub fn new() -> (r: RetryState)
        ensures
            r.attempts == 0,
    {
        RetryState { attempts: 0 }
    }

    /// Records the outcome of one attempt and says what comes next.
    pub fn record<T, E>(&mut self, policy: RetryPolicy, outcome: Result<T, E>) -> (r: RetryStep<T, E>)
        requires
            state_wf(policy, *old(self)),
        ensures
            r == decide(policy, old(self).attempts as nat, outcome),
            final(self).attempts == old(self).attempts + 1,
            r is RetryAfter ==> state_wf(policy, *final(self)),
    {
        self.attempts = self.attempts + 1;
        match outcome {
            Ok(v) => RetryStep::Succeeded(v),
            Err(e) => {
                if self.attempts >= policy.max_attempts {
                    RetryStep::Exhausted { attempts: self.attempts, last: e }
                } else {
                    RetryStep::RetryAfter(policy.delay_ms)
                }
            },
        }
    }
}

/// An operation that fails on every attempt is attempted exactly
/// `max_attempts` times: each failure before the last asks for another
/// attempt, and the last one reports exhaustion after `max_attempts` attempts.
pub proof fn lemma_retry_bound<T, E>(policy: RetryPolicy, failure: E)
    requires
        policy.wf(),
    ensures
        attempts_when_failing(policy, 0) == policy.max_attempts,
        forall|made: nat| made + 1 < policy.max_attempts ==> #[trigger] decide::<T, E>(policy, made, Err(failure))
            == RetryStep::<T, E>::RetryAfter(policy.delay_ms),
        decide::<T, E>(policy, (policy.max_attempts - 1) as nat, Err(failure)) == (RetryStep::<T, E>::Exhausted {
            attempts: policy.max_attempts,
            last: failure,
        }),
{
    lemma_attempts_when_failing(policy, 0);
}

proof fn lemma_attempts_when_failing(policy: RetryPolicy, made: nat)
    requires
        policy.wf(),
        made < policy.max_attempts,
    ensures
        attempts_when_failing(policy, made) == policy.max_attempts,
    decreases policy.max_attempts - made,
{
    if made + 1 < policy.max_attempts {
        lemma_attempts_when_failing(policy, made + 1);
    }
}

} // verus!

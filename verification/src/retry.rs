//! Bounded retry with exponential backoff.
//!
//! An operation that may fail is attempted up to a fixed number of times. A
//! delay precedes every attempt; it starts at an initial value, is
//! multiplied after every failure and never exceeds a cap. The policy knows
//! nothing of the operation: it is told of each failure and answers with
//! the delay before the next attempt, or that there is none.

use vstd::prelude::*;
use vstd::arithmetic::power::{lemma_pow0, lemma_pow_positive, pow};

verus! {

/// The smaller of two numbers.
pub open spec fn at_most(value: int, cap: int) -> int {
    if value <= cap {
        value
    } else {
        cap
    }
}

/// The parameters of a retry policy. Delays are in milliseconds.
#[derive(Clone, Copy, Debug, PartialEq, Eq, Structural)]
pub struct BackoffRetryBuilder {
    /// The delay before the first attempt.
    pub delay: u64,
    /// The factor by which the delay grows from one attempt to the next.
    pub delay_mul: u64,
    /// The largest delay before any attempt.
    pub delay_max: u64,
    /// How many attempts are made before the operation is given up.
    pub retries: usize,
}

/// What precedes the next attempt, if there is one.
#[derive(Clone, Copy, Debug, PartialEq, Eq, Structural)]
pub enum RetryStep {
    /// Wait for `delay` milliseconds, then attempt the operation.
    Wait { delay: u64 },
    /// Every attempt was made and failed: report the last failure.
    GiveUp,
}

impl BackoffRetryBuilder {
    /// The delay before attempt number `attempt`, counted from 1: the
    /// initial delay times the multiplier once for every earlier attempt,
    /// or the cap where that is more.
    pub open spec fn delay_before(self, attempt: nat) -> int
        recommends
            attempt >= 1,
    {
        at_most(self.delay * pow(self.delay_mul as int, (attempt - 1) as nat), self.delay_max as int)
    }

    /// What precedes the next attempt once `failures` attempts have failed
    /// in a row: the delay of the attempt that follows them, or nothing
    /// where that many attempts are all there are.
    pub open spec fn step_after(self, failures: nat) -> RetryStep {
        if failures < self.retries {
            RetryStep::Wait { delay: self.delay_before(failures + 1) as u64 }
        } else {
            RetryStep::GiveUp
        }
    }

    /// No delay is negative or above the cap.
    pub proof fn lemma_delay_bounds(self, attempt: nat)
        ensures
            0 <= self.delay_before(attempt) <= self.delay_max,
    {
        let e = (attempt - 1) as nat;
        if self.delay_mul > 0 {
            lemma_pow_positive(self.delay_mul as int, e);
        } else if e == 0 {
            lemma_pow0(0);
        } else {
            lemma_pow_zero_base(e);
        }
        assert(0 <= self.delay * pow(self.delay_mul as int, e)) by (nonlinear_arith)
            requires
                0 <= self.delay,
                0 <= pow(self.delay_mul as int, e),
        ;
    }

    /// From one attempt to the next the delay is multiplied, up to the cap.
    pub proof fn lemma_delay_grows(self, attempt: nat)
        requires
            attempt >= 1,
        ensures
            self.delay_before(attempt + 1) == at_most(
                self.delay_before(attempt) * self.delay_mul,
                self.delay_max as int,
            ),
    {
        let e = (attempt - 1) as nat;
        let m = self.delay_mul as int;
        let p = pow(m, e);
        let x = self.delay * p;
        self.lemma_delay_bounds(attempt);
        assert(pow(m, (e + 1) as nat) == m * p) by {
            reveal(pow);
        }
        assert(self.delay * (m * p) == x * m) by (nonlinear_arith)
            requires
                x == self.delay * p,
        ;
        if x > self.delay_max {
            if m >= 1 {
                assert(x * m >= x) by (nonlinear_arith)
                    requires
                        x >= 0,
                        m >= 1,
                ;
                assert(self.delay_max * m >= self.delay_max) by (nonlinear_arith)
                    requires
                        self.delay_max >= 0,
                        m >= 1,
                ;
            } else {
                assert(x * m == 0 && self.delay_max * m == 0) by (nonlinear_arith)
                    requires
                        m == 0,
                ;
            }
        }
    }

    /// With a multiplier of one or more, no attempt waits less than the one
    /// before it.
    pub proof fn lemma_delay_monotone(self, attempt: nat)
        requires
            attempt >= 1,
            self.delay_mul >= 1,
        ensures
            self.delay_before(attempt) <= self.delay_before(attempt + 1),
    {
        self.lemma_delay_grows(attempt);
        self.lemma_delay_bounds(attempt);
        let d = self.delay_before(attempt);
        let m = self.delay_mul as int;
        assert(d * m >= d) by (nonlinear_arith)
            requires
                d >= 0,
                m >= 1,
        ;
    }

    /// The delay before attempt number `attempt`, counted from 1.
    pub fn delay_for(&self, attempt: usize) -> (delay: u64)
        requires
            attempt >= 1,
        ensures
            delay == self.delay_before(attempt as nat),
    {
        let mut delay = RetryState::new(*self).current_delay();
        let mut done: usize = 1;
        while done < attempt
            invariant
                1 <= done <= attempt,
                delay == self.delay_before(done as nat),
            decreases attempt - done,
        {
            delay = self.grow(delay, Ghost(done as nat));
            done = done + 1;
        }
        delay
    }

    /// The delay that follows `current`, the delay before attempt `attempt`.
    fn grow(&self, current: u64, Ghost(attempt): Ghost<nat>) -> (next: u64)
        requires
            attempt >= 1,
            current == self.delay_before(attempt),
        ensures
            next == self.delay_before(attempt + 1),
    {
        proof {
            self.lemma_delay_grows(attempt);
        }
        match current.checked_mul(self.delay_mul) {
            Some(product) => if product <= self.delay_max {
                product
            } else {
                self.delay_max
            },
            None => self.delay_max,
        }
    }
}

/// A policy gives up exactly when as many attempts have failed as it
/// allows. Until then it asks for the delay of the attempt that comes next,
/// which fits the type that carries it.
pub proof fn lemma_gives_up_after_last_attempt(policy: BackoffRetryBuilder, failures: nat)
    ensures
        policy.step_after(failures) is GiveUp <==> failures >= policy.retries,
        failures < policy.retries ==> policy.step_after(failures) == (RetryStep::Wait {
            delay: policy.delay_before(failures + 1) as u64,
        }) && 0 <= policy.delay_before(failures + 1) <= policy.delay_max,
{
    policy.lemma_delay_bounds(failures + 1);
}

proof fn lemma_pow_zero_base(e: nat)
    requires
        e > 0,
    ensures
        pow(0, e) == 0,
{
    reveal(pow);
    assert(0 * pow(0, (e - 1) as nat) == 0) by (nonlinear_arith);
}

/// The progress of one retried operation: the policy it runs under, the
/// attempts that have failed so far, and the delay before the next attempt.
#[derive(Clone, Copy, Debug, PartialEq, Eq)]
pub struct RetryState {
    policy: BackoffRetryBuilder,
    attempt_count: usize,
    current_delay: u64,
}

impl RetryState {
    /// No more attempts have failed than the policy allows, and the delay
    /// is the one that the policy gives to the attempt that comes next.
    #[verifier::type_invariant]
    closed spec fn well_formed(&self) -> bool {
        &&& self.attempt_count <= self.policy.retries
        &&& self.current_delay == self.policy.delay_before(self.attempt_count as nat + 1)
    }

    /// The policy that this operation is retried under.
    pub closed spec fn policy(&self) -> BackoffRetryBuilder {
        self.policy
    }

    /// The number of attempts that have failed.
    pub closed spec fn attempts(&self) -> nat {
        self.attempt_count as nat
    }

    /// The state before the first attempt.
    pub fn new(policy: BackoffRetryBuilder) -> (state: RetryState)
        ensures
            state.policy() == policy,
            state.attempts() == 0,
    {
        proof {
            lemma_pow0(policy.delay_mul as int);
            assert(policy.delay * 1 == policy.delay) by (nonlinear_arith);
        }
        RetryState {
            policy,
            attempt_count: 0,
            current_delay: if policy.delay <= policy.delay_max {
                policy.delay
            } else {
                policy.delay_max
            },
        }
    }

    /// The number of attempts that have failed: never more than the policy
    /// allows.
    pub fn attempt_count(&self) -> (count: usize)
        ensures
            count == self.attempts(),
            count <= self.policy().retries,
    {
        proof {
            use_type_invariant(self);
        }
        self.attempt_count
    }

    /// The delay before the next attempt, in milliseconds.
    pub fn current_delay(&self) -> (delay: u64)
        ensures
            delay == self.policy().delay_before(self.attempts() + 1),
    {
        proof {
            use_type_invariant(self);
        }
        self.current_delay
    }

    /// What precedes the next attempt: its delay, or nothing once as many
    /// attempts have failed as the policy allows.
    pub fn step(&self) -> (step: RetryStep)
        ensures
            step == self.policy().step_after(self.attempts()),
    {
        proof {
            use_type_invariant(self);
        }
        if self.attempt_count < self.policy.retries {
            RetryStep::Wait { delay: self.current_delay }
        } else {
            RetryStep::GiveUp
        }
    }

    /// Records that the attempt just made has failed, and says what
    /// precedes the next one: the delay of the next attempt, or nothing if
    /// the failed attempt was the last. A failure reported after the last
    /// attempt changes nothing.
    pub fn on_failure(&mut self) -> (step: RetryStep)
        ensures
            final(self).policy() == old(self).policy(),
            final(self).attempts() == if old(self).attempts() < old(self).policy().retries {
                old(self).attempts() + 1
            } else {
                old(self).attempts()
            },
            step == old(self).policy().step_after(old(self).attempts() + 1),
    {
        proof {
            use_type_invariant(&*self);
        }
        if self.attempt_count < self.policy.retries {
            let current_delay = self.policy.grow(
                self.current_delay,
                Ghost((self.attempt_count + 1) as nat),
            );
            *self = RetryState {
                policy: self.policy,
                attempt_count: self.attempt_count + 1,
                current_delay,
            };
        }
        self.step()
    }
}

} // verus!

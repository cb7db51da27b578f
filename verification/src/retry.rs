//! Bounded retry with a fixed delay: the decisions of one remote call that
//! may fail and be tried again.
//!
//! The caller makes the attempts and sleeps; this module says, after each
//! outcome, whether another attempt is due and after how long.

use vstd::prelude::*;

verus! {

/// Where a call stands.
#[derive(Clone, Copy, Debug, PartialEq, Eq, Structural)]
pub enum RetryStatus {
    /// An attempt may be made.
    InProgress,
    /// An attempt succeeded; no more are made.
    Succeeded,
    /// Every allowed attempt failed; no more are made.
    Exhausted,
}

/// What to do after a failed attempt.
#[derive(Clone, Copy, Debug, PartialEq, Eq, Structural)]
pub enum RetryDecision {
    /// Sleep this many milliseconds, then make the next attempt.
    RetryAfter(u64),
    /// Make no further attempt: the call has failed for good.
    GiveUp,
}

/// The mathematical state of one call under a retry policy.
pub struct RetryModel {
    /// The number of attempts that the policy allows.
    pub max_attempts: nat,
    /// The pause between two attempts, in milliseconds.
    pub delay_ms: nat,
    /// The number of attempts that have failed.
    pub failures: nat,
    pub status: RetryStatus,
}

impl RetryModel {
    pub open spec fn wf(self) -> bool {
        &&& self.max_attempts >= 1
        &&& match self.status {
            RetryStatus::InProgress => self.failures < self.max_attempts,
            RetryStatus::Succeeded => self.failures < self.max_attempts,
            RetryStatus::Exhausted => self.failures == self.max_attempts,
        }
    }

    /// A call of which no attempt has been made yet.
    pub open spec fn fresh(max_attempts: nat, delay_ms: nat) -> RetryModel {
        RetryModel { max_attempts, delay_ms, failures: 0, status: RetryStatus::InProgress }
    }

    /// The number of attempts made so far.
    pub open spec fn attempts(self) -> nat {
        match self.status {
            RetryStatus::Succeeded => self.failures + 1,
            _ => self.failures,
        }
    }

    /// The time spent sleeping so far, in milliseconds: one pause after each
    /// failure but the one that exhausted the call.
    pub open spec fn slept_ms(self) -> nat {
        match self.status {
            RetryStatus::Exhausted => ((self.failures - 1) * self.delay_ms) as nat,
            _ => self.failures * self.delay_ms,
        }
    }

    /// The decision after one more failed attempt.
    pub open spec fn decision(self) -> RetryDecision {
        if self.status is InProgress && self.failures + 1 < self.max_attempts {
            RetryDecision::RetryAfter(self.delay_ms as u64)
        } else {
            RetryDecision::GiveUp
        }
    }

    /// The state after one more attempt with the given outcome. A call that
    /// has succeeded or is exhausted makes no attempt and stays as it is.
    pub open spec fn step(self, success: bool) -> RetryModel {
        if !(self.status is InProgress) {
            self
        } else if success {
            RetryModel { status: RetryStatus::Succeeded, ..self }
        } else if self.failures + 1 < self.max_attempts {
            RetryModel { failures: self.failures + 1, ..self }
        } else {
            RetryModel { failures: self.failures + 1, status: RetryStatus::Exhausted, ..self }
        }
    }

    /// The state after the remote end has answered the attempts with
    /// `outcomes`, in order, for as long as attempts are made.
    pub open spec fn run(self, outcomes: Seq<bool>) -> RetryModel
        decreases outcomes.len(),
    {
        if outcomes.len() == 0 {
            self
        } else {
            self.step(outcomes[0]).run(outcomes.skip(1))
        }
    }
}

/// A step keeps a well-formed call well-formed, under the same policy.
pub proof fn lemma_step_preserves_wf(state: RetryModel, success: bool)
    requires
        state.wf(),
    ensures
        state.step(success).wf(),
        state.step(success).max_attempts == state.max_attempts,
        state.step(success).delay_ms == state.delay_ms,
{
}

/// Once a call has succeeded or is exhausted, nothing that the remote end
/// would answer changes it: no further attempt is made.
pub proof fn lemma_finished_call_makes_no_attempt(state: RetryModel, outcomes: Seq<bool>)
    requires
        !(state.status is InProgress),
    ensures
        state.run(outcomes) == state,
    decreases outcomes.len(),
{
    if outcomes.len() > 0 {
        lemma_finished_call_makes_no_attempt(state, outcomes.skip(1));
    }
}

/// After `k` failures in a row, with `k` below the allowed number of
/// attempts, a call is still in progress and has slept `k` pauses.
pub proof fn lemma_run_of_failures(state: RetryModel, outcomes: Seq<bool>)
    requires
        state.wf(),
        state.status is InProgress,
        state.failures + outcomes.len() < state.max_attempts,
        forall|i: int| 0 <= i < outcomes.len() ==> !outcomes[i],
    ensures
        state.run(outcomes) == (RetryModel {
            failures: state.failures + outcomes.len(),
            ..state
        }),
    decreases outcomes.len(),
{
    if outcomes.len() > 0 {
        let next = state.step(outcomes[0]);
        let rest = outcomes.skip(1);
        assert forall|i: int| 0 <= i < rest.len() implies !rest[i] by {
            assert(rest[i] == outcomes[i + 1]);
        }
        lemma_run_of_failures(next, rest);
    }
}

/// Splitting the answers in two runs the call through the first part and
/// then through the second.
pub proof fn lemma_run_split(state: RetryModel, first: Seq<bool>, second: Seq<bool>)
    ensures
        state.run(first + second) == state.run(first).run(second),
    decreases first.len(),
{
    if first.len() == 0 {
        assert(first + second =~= second);
    } else {
        assert((first + second).skip(1) =~= first.skip(1) + second);
        assert((first + second)[0] == first[0]);
        lemma_run_split(state.step(first[0]), first.skip(1), second);
    }
}

/// A call whose first `k` attempts fail and whose next attempt succeeds,
/// with `k` below the allowed number of attempts, ends in success after
/// exactly `k + 1` attempts and `k` pauses of the fixed delay, whatever the
/// remote end would have answered afterwards.
pub proof fn lemma_success_after_failures(
    max_attempts: nat,
    delay_ms: nat,
    k: nat,
    outcomes: Seq<bool>,
)
    requires
        max_attempts >= 1,
        k < max_attempts,
        outcomes.len() > k,
        forall|i: int| 0 <= i < k ==> !outcomes[i],
        outcomes[k as int],
    ensures
        RetryModel::fresh(max_attempts, delay_ms).run(outcomes).status is Succeeded,
        RetryModel::fresh(max_attempts, delay_ms).run(outcomes).attempts() == k + 1,
        RetryModel::fresh(max_attempts, delay_ms).run(outcomes).slept_ms() == k * delay_ms,
{
    let start = RetryModel::fresh(max_attempts, delay_ms);
    let failed = outcomes.subrange(0, k as int);
    let tail = outcomes.subrange(k as int, outcomes.len() as int);
    assert(outcomes =~= failed + tail);
    lemma_run_split(start, failed, tail);
    lemma_run_of_failures(start, failed);
    let before = start.run(failed);
    assert(tail[0] == outcomes[k as int]);
    let after = before.step(true);
    assert(before.run(tail) == after.run(tail.skip(1)));
    lemma_finished_call_makes_no_attempt(after, tail.skip(1));
}

/// A call whose attempts all fail gives up after exactly the allowed number
/// of attempts, and makes no further one however long the remote end would
/// go on failing.
pub proof fn lemma_exhaustion_after_max_attempts(
    max_attempts: nat,
    delay_ms: nat,
    outcomes: Seq<bool>,
)
    requires
        max_attempts >= 1,
        outcomes.len() >= max_attempts,
        forall|i: int| 0 <= i < max_attempts ==> !outcomes[i],
    ensures
        RetryModel::fresh(max_attempts, delay_ms).run(outcomes).status is Exhausted,
        RetryModel::fresh(max_attempts, delay_ms).run(outcomes).attempts() == max_attempts,
        RetryModel::fresh(max_attempts, delay_ms).run(outcomes).slept_ms() == (max_attempts - 1)
            * delay_ms,
{
    let start = RetryModel::fresh(max_attempts, delay_ms);
    let k = (max_attempts - 1) as nat;
    let failed = outcomes.subrange(0, k as int);
    let tail = outcomes.subrange(k as int, outcomes.len() as int);
    assert(outcomes =~= failed + tail);
    lemma_run_split(start, failed, tail);
    lemma_run_of_failures(start, failed);
    let before = start.run(failed);
    assert(tail[0] == outcomes[k as int]);
    let after = before.step(false);
    assert(before.run(tail) == after.run(tail.skip(1)));
    lemma_finished_call_makes_no_attempt(after, tail.skip(1));
}

/// How often a call is attempted, and how long it pauses between attempts.
#[derive(Clone, Copy, Debug, PartialEq, Eq, Structural)]
pub struct RetryPolicy {
    max_attempts: usize,
    delay_ms: u64,
}

impl RetryPolicy {
    /// The number of attempts allowed: at least one.
    pub closed spec fn spec_max_attempts(&self) -> usize {
        self.max_attempts
    }

    /// The pause between two attempts, in milliseconds.
    pub closed spec fn spec_delay_ms(&self) -> u64 {
        self.delay_ms
    }

    pub open spec fn wf(&self) -> bool {
        self.spec_max_attempts() >= 1
    }

    /// The policy of remote block execution: five attempts, 20 ms apart.
    pub fn standard() -> (policy: RetryPolicy)
        ensures
            policy.wf(),
            policy.spec_max_attempts() == 5,
            policy.spec_delay_ms() == 20,
    {
        RetryPolicy { max_attempts: 5, delay_ms: 20 }
    }

    /// A policy of `max_attempts` attempts, `delay_ms` apart. There is no
    /// policy of zero attempts.
    pub fn fixed(max_attempts: usize, delay_ms: u64) -> (policy: Option<RetryPolicy>)
        ensures
            policy is Some <==> max_attempts >= 1,
            policy matches Some(p) ==> p.wf() && p.spec_max_attempts() == max_attempts
                && p.spec_delay_ms() == delay_ms,
    {
        if max_attempts == 0 {
            None
        } else {
            Some(RetryPolicy { max_attempts, delay_ms })
        }
    }

    #[verifier::when_used_as_spec(spec_max_attempts)]
    pub fn max_attempts(&self) -> (n: usize)
        ensures
            n == self.spec_max_attempts(),
    {
        self.max_attempts
    }

    #[verifier::when_used_as_spec(spec_delay_ms)]
    pub fn delay_ms(&self) -> (ms: u64)
        ensures
            ms == self.spec_delay_ms(),
    {
        self.delay_ms
    }
}

/// The progress of one call under a policy.
#[derive(Clone, Copy, Debug, PartialEq, Eq, Structural)]
pub struct RetryState {
    policy: RetryPolicy,
    failures: usize,
    status: RetryStatus,
}

impl View for RetryState {
    type V = RetryModel;

    closed spec fn view(&self) -> RetryModel {
        RetryModel {
            max_attempts: self.policy.max_attempts as nat,
            delay_ms: self.policy.delay_ms as nat,
            failures: self.failures as nat,
            status: self.status,
        }
    }
}

impl RetryState {
    pub open spec fn wf(&self) -> bool {
        self@.wf() && self@.delay_ms <= u64::MAX
    }

    /// A call of which no attempt has been made yet.
    pub fn new(policy: RetryPolicy) -> (state: RetryState)
        requires
            policy.wf(),
        ensures
            state.wf(),
            state@ == RetryModel::fresh(policy.max_attempts() as nat, policy.delay_ms() as nat),
    {
        RetryState { policy, failures: 0, status: RetryStatus::InProgress }
    }

    /// Records that the attempt just made succeeded.
    pub fn on_success(&mut self)
        requires
            old(self).wf(),
        ensures
            final(self).wf(),
            final(self)@ == old(self)@.step(true),
    {
        match self.status {
            RetryStatus::InProgress => {
                self.status = RetryStatus::Succeeded;
            },
            _ => {},
        }
    }

    /// Records that the attempt just made failed, and decides what follows:
    /// another attempt after the fixed delay, or none.
    pub fn on_failure(&mut self) -> (decision: RetryDecision)
        requires
            old(self).wf(),
        ensures
            final(self).wf(),
            final(self)@ == old(self)@.step(false),
            decision == old(self)@.decision(),
            decision is GiveUp <==> !(final(self)@.status is InProgress),
    {
        match self.status {
            RetryStatus::InProgress => {
                self.failures = self.failures + 1;
                if self.failures < self.policy.max_attempts {
                    RetryDecision::RetryAfter(self.policy.delay_ms)
                } else {
                    self.status = RetryStatus::Exhausted;
                    RetryDecision::GiveUp
                }
            },
            _ => RetryDecision::GiveUp,
        }
    }

    pub fn status(&self) -> (status: RetryStatus)
        ensures
            status == self@.status,
    {
        self.status
    }

    /// The number of attempts made so far.
    pub fn attempts(&self) -> (n: usize)
        requires
            self.wf(),
        ensures
            n == self@.attempts(),
    {
        match self.status {
            RetryStatus::Succeeded => self.failures + 1,
            _ => self.failures,
        }
    }
}

} // verus!

//! The delivery cursor that is stored for every destination instance.

use crate::backoff::RetryPolicy;
use vstd::prelude::*;

verus! {

/// One outbound activity as the delivery queue sees it: its place in the
/// activity log and the time at which it was created, in milliseconds since
/// the epoch.
#[derive(Clone, Copy, Debug, PartialEq, Eq, Structural)]
pub struct QueuedActivity {
    pub id: i64,
    pub created_at: i64,
}

/// How far delivery to one instance has come, and how it has been failing.
#[derive(Clone, Copy, Debug, PartialEq, Eq, Structural)]
pub struct FederationQueueState {
    pub instance_id: i32,
    /// Every activity up to and including this id is done for the instance.
    pub last_successful_id: i64,
    /// Failed attempts in a row on the activity after `last_successful_id`.
    pub fail_count: i32,
    /// When the last failed attempt was made.
    pub last_retry_at: Option<i64>,
    /// Creation time of the activity with id `last_successful_id`.
    pub last_successful_published_time_at: Option<i64>,
}

/// A queue state together with the domain of its instance, for those who
/// report on the queues and should not have to look the domain up.
#[derive(Clone, Debug, PartialEq, Eq)]
pub struct FederationQueueStateWithDomain {
    pub domain: String,
    pub state: FederationQueueState,
}

impl FederationQueueState {
    /// The state of an instance to which nothing has been sent yet.
    pub fn new(instance_id: i32) -> (state: FederationQueueState)
        ensures
            state == (FederationQueueState {
                instance_id,
                last_successful_id: 0,
                fail_count: 0,
                last_retry_at: None,
                last_successful_published_time_at: None,
            }),
    {
        FederationQueueState {
            instance_id,
            last_successful_id: 0,
            fail_count: 0,
            last_retry_at: None,
            last_successful_published_time_at: None,
        }
    }

    /// The number of failures that count towards the delay.
    pub open spec fn failures(self) -> nat {
        if self.fail_count < 0 {
            0
        } else {
            self.fail_count as nat
        }
    }

    /// The state after `activity` is done: the cursor moves forward to it, if
    /// it lies ahead, and the failures are forgotten.
    pub open spec fn advanced(self, activity: QueuedActivity) -> FederationQueueState {
        if activity.id > self.last_successful_id {
            FederationQueueState {
                last_successful_id: activity.id,
                fail_count: 0,
                last_successful_published_time_at: Some(activity.created_at),
                ..self
            }
        } else {
            FederationQueueState { fail_count: 0, ..self }
        }
    }

    /// The state after an attempt failed at `now`: one more failure, the
    /// cursor where it was.
    pub open spec fn failed(self, now: i64) -> FederationQueueState {
        FederationQueueState {
            fail_count: if self.fail_count < 0 {
                1
            } else if self.fail_count < i32::MAX {
                (self.fail_count + 1) as i32
            } else {
                i32::MAX
            },
            last_retry_at: Some(now),
            ..self
        }
    }

    /// How long to wait at `now` before the next attempt, in milliseconds:
    /// what is left of the retry delay, counted from the last failed attempt.
    /// Nothing is left where no attempt has failed. A clock that went
    /// backwards gives the whole delay.
    pub open spec fn retry_wait_spec(self, policy: RetryPolicy, now: i64) -> nat {
        match self.last_retry_at {
            None => 0,
            Some(last) => {
                let delay = policy.delay_spec(self.failures());
                let elapsed = now - last;
                if self.fail_count <= 0 || elapsed >= delay {
                    0
                } else if elapsed <= 0 {
                    delay
                } else {
                    (delay - elapsed) as nat
                }
            },
        }
    }

    /// Records that `activity` is done for this instance.
    pub fn record_success(&mut self, activity: QueuedActivity)
        ensures
            *final(self) == old(self).advanced(activity),
            final(self).last_successful_id >= old(self).last_successful_id,
            final(self).last_successful_id >= activity.id,
    {
        if activity.id > self.last_successful_id {
            self.last_successful_id = activity.id;
            self.last_successful_published_time_at = Some(activity.created_at);
        }
        self.fail_count = 0;
    }

    /// Records a failed attempt made at `now`.
    pub fn record_failure(&mut self, now: i64)
        ensures
            *final(self) == old(self).failed(now),
            final(self).last_successful_id == old(self).last_successful_id,
            final(self).fail_count >= 1,
    {
        if self.fail_count < 0 {
            self.fail_count = 1;
        } else if self.fail_count < i32::MAX {
            self.fail_count = self.fail_count + 1;
        }
        self.last_retry_at = Some(now);
    }

    /// The delay that the policy gives for the failures recorded here.
    pub fn retry_delay(&self, policy: &RetryPolicy) -> (delay_ms: u64)
        ensures
            delay_ms == policy.delay_spec(self.failures()),
            delay_ms <= policy.max_delay_ms,
    {
        if self.fail_count <= 0 {
            policy.delay(0)
        } else {
            policy.delay(self.fail_count as u32)
        }
    }

    /// How long to wait at `now` before the next attempt, in milliseconds.
    pub fn retry_wait(&self, policy: &RetryPolicy, now: i64) -> (wait_ms: u64)
        ensures
            wait_ms == self.retry_wait_spec(*policy, now),
            wait_ms <= policy.max_delay_ms,
    {
        match self.last_retry_at {
            None => 0,
            Some(last) => {
                if self.fail_count <= 0 {
                    return 0;
                }
                let delay: u64 = self.retry_delay(policy);
                let elapsed: i128 = now as i128 - last as i128;
                if elapsed >= delay as i128 {
                    0
                } else if elapsed <= 0 {
                    delay
                } else {
                    (delay as i128 - elapsed) as u64
                }
            },
        }
    }

    /// Whether the next attempt may be made at `now`.
    pub fn retry_due(&self, policy: &RetryPolicy, now: i64) -> (due: bool)
        ensures
            due == (self.retry_wait_spec(*policy, now) == 0),
    {
        self.retry_wait(policy, now) == 0
    }
}

/// One more failure of the same destination never shortens the wait before
/// the next attempt, it never moves the cursor, and no wait is longer than
/// the policy's maximum.
pub proof fn lemma_failure_lengthens_delay(state: FederationQueueState, policy: RetryPolicy, now: i64)
    ensures
        policy.delay_spec(state.failures()) <= policy.delay_spec(state.failed(now).failures()),
        policy.delay_spec(state.failed(now).failures()) <= policy.max_delay_ms,
        state.failed(now).last_successful_id == state.last_successful_id,
        state.failed(now).retry_wait_spec(policy, now) == policy.delay_spec(
            state.failed(now).failures(),
        ),
{
    crate::backoff::lemma_retry_delay_monotonic(
        policy.base_delay_ms as nat,
        policy.max_delay_ms as nat,
        state.failures(),
        state.failed(now).failures(),
    );
    crate::backoff::lemma_retry_delay_bounded(
        policy.base_delay_ms as nat,
        policy.max_delay_ms as nat,
        state.failed(now).failures(),
    );
}

} // verus!

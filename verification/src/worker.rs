//! The delivery worker of one destination instance.
//!
//! A worker decides; its driver acts. The driver hands the worker what
//! happened (a sleep ended, the log was read, a delivery failed) and gets back
//! what to do next, and whether the queue state has to be saved first. The
//! worker never looks past an activity that has neither been delivered nor
//! been found to be none of the destination's business.

use crate::backoff::RetryPolicy;
use crate::queue::{FederationQueueState, QueuedActivity};
use vstd::prelude::*;

verus! {

/// Where a worker stands.
#[derive(Clone, Copy, Debug, PartialEq, Eq, Structural)]
pub enum WorkerPhase {
    /// Nothing to do; the driver sleeps, or has yet to start the worker.
    Idle,
    /// Waiting for the latest activity id.
    Probing,
    /// Waiting for the next batch of the activity log.
    Fetching,
    /// Waiting for the recipients of the activity at the head of the batch.
    Resolving,
    /// Waiting for the outcome of a delivery.
    Sending,
    /// The last delivery failed; the driver sleeps until the retry is due.
    Backoff,
    /// The worker has ended, and stays so.
    Stopped,
}

/// What the driver reports to the worker.
#[derive(Clone, Copy, Debug, PartialEq, Eq, Structural)]
pub enum WorkerEvent {
    /// The worker was started, or a sleep has ended, at `now`.
    Wake { now: i64 },
    /// The latest id of the activity log.
    LatestId { latest_id: i64 },
    /// Recipients were computed: whether the destination is among them.
    Resolved { is_target: bool },
    /// The destination has accepted the activity.
    Delivered,
    /// The delivery failed at `now`, for the time being.
    Failed { now: i64 },
    /// The destination is gone for good.
    Gone,
    /// Shutdown was requested.
    Cancel,
    /// The destination has been blocked.
    Blocked,
}

/// What the worker asks the driver to do.
#[derive(Clone, Copy, Debug, PartialEq, Eq, Structural)]
pub enum WorkerAction {
    /// Nothing: the event was not expected in this phase.
    Nothing,
    /// Sleep, then report `Wake`.
    Sleep { ms: u64 },
    /// Ask for the latest activity id, then report `LatestId`.
    ProbeLatestId,
    /// Read up to `limit` activities with an id above `after_id`, in
    /// ascending order, then hand them to `InstanceWorker::accept_batch`.
    ReadBatch { after_id: i64, limit: u32 },
    /// Compute the recipients of the activity, then report `Resolved`.
    ResolveTargets { activity_id: i64 },
    /// Deliver the activity, then report `Delivered`, `Failed` or `Gone`.
    Send { activity_id: i64 },
    /// Mark the destination as dead and stop.
    MarkDead,
    /// Stop.
    Stop,
}

/// The worker's answer to an event.
#[derive(Clone, Copy, Debug, PartialEq, Eq, Structural)]
pub struct WorkerStep {
    /// Save the worker's queue state before acting.
    pub persist: bool,
    pub action: WorkerAction,
}

/// What a worker is run with.
#[derive(Clone, Copy, Debug, PartialEq, Eq, Structural)]
pub struct WorkerConfig {
    pub retry: RetryPolicy,
    /// Sleep between two looks at the log while there is no new work.
    pub recheck_delay_ms: u64,
    /// The largest batch to read from the log.
    pub batch_limit: u32,
}

/// A worker as the contracts see it.
pub struct WorkerModel {
    pub state: FederationQueueState,
    pub phase: WorkerPhase,
    /// The batch at hand.
    pub pending: Seq<QueuedActivity>,
    /// The place in the batch of the activity that is next.
    pub next: nat,
    pub config: WorkerConfig,
}

/// A batch that can follow the cursor: ids ascending, each above the cursor.
pub open spec fn batch_follows(cursor: i64, batch: Seq<QueuedActivity>) -> bool {
    &&& forall|i: int| 0 <= i < batch.len() ==> cursor < (#[trigger] batch[i]).id
    &&& forall|i: int, j: int|
        0 <= i < j < batch.len() ==> (#[trigger] batch[i]).id < (#[trigger] batch[j]).id
}

impl WorkerModel {
    /// The cursor is behind everything that is still pending, the pending
    /// ids ascend, and the phase fits what is pending.
    pub open spec fn wf(self) -> bool {
        &&& self.next <= self.pending.len()
        &&& batch_follows(
            self.state.last_successful_id,
            self.pending.subrange(self.next as int, self.pending.len() as int),
        )
        &&& (self.phase == WorkerPhase::Resolving || self.phase == WorkerPhase::Sending)
            ==> self.next < self.pending.len()
        &&& (self.phase == WorkerPhase::Idle || self.phase == WorkerPhase::Probing || self.phase
            == WorkerPhase::Fetching) ==> self.next == self.pending.len()
    }

    /// The activity that is next.
    pub open spec fn head(self) -> QueuedActivity
        recommends
            self.next < self.pending.len(),
    {
        self.pending[self.next as int]
    }

    /// A worker that starts from a stored queue state: it waits out a retry
    /// delay if the state records failures, and is idle if not.
    pub open spec fn start(state: FederationQueueState, config: WorkerConfig) -> WorkerModel {
        WorkerModel {
            state,
            phase: if state.fail_count > 0 {
                WorkerPhase::Backoff
            } else {
                WorkerPhase::Idle
            },
            pending: Seq::empty(),
            next: 0,
            config,
        }
    }

    /// The worker turns to what is next: the head of the batch, or the log.
    pub open spec fn proceed(self, persist: bool) -> (WorkerModel, WorkerStep) {
        if self.next < self.pending.len() {
            (
                WorkerModel { phase: WorkerPhase::Resolving, ..self },
                WorkerStep {
                    persist,
                    action: WorkerAction::ResolveTargets { activity_id: self.head().id },
                },
            )
        } else {
            (
                WorkerModel { phase: WorkerPhase::Probing, ..self },
                WorkerStep { persist, action: WorkerAction::ProbeLatestId },
            )
        }
    }

    /// The head of the batch is done: the cursor moves to it, the state is
    /// to be saved, and the worker turns to what is next.
    pub open spec fn advance(self) -> (WorkerModel, WorkerStep) {
        WorkerModel {
            state: self.state.advanced(self.head()),
            next: self.next + 1,
            ..self
        }.proceed(true)
    }

    /// The event was not expected: nothing changes.
    pub open spec fn ignore(self) -> (WorkerModel, WorkerStep) {
        (self, WorkerStep { persist: false, action: WorkerAction::Nothing })
    }

    /// What the worker becomes, and what it answers, when `event` is reported.
    pub open spec fn step(self, event: WorkerEvent) -> (WorkerModel, WorkerStep) {
        if self.phase == WorkerPhase::Stopped {
            (self, WorkerStep { persist: false, action: WorkerAction::Stop })
        } else {
            match event {
                WorkerEvent::Cancel | WorkerEvent::Blocked => (
                    WorkerModel { phase: WorkerPhase::Stopped, ..self },
                    WorkerStep { persist: false, action: WorkerAction::Stop },
                ),
                WorkerEvent::Wake { now } => {
                    if self.phase == WorkerPhase::Idle {
                        self.proceed(false)
                    } else if self.phase == WorkerPhase::Backoff {
                        let wait = self.state.retry_wait_spec(self.config.retry, now);
                        if wait == 0 {
                            self.proceed(false)
                        } else {
                            (
                                self,
                                WorkerStep {
                                    persist: false,
                                    action: WorkerAction::Sleep { ms: wait as u64 },
                                },
                            )
                        }
                    } else {
                        self.ignore()
                    }
                },
                WorkerEvent::LatestId { latest_id } => {
                    if self.phase != WorkerPhase::Probing {
                        self.ignore()
                    } else if latest_id > self.state.last_successful_id {
                        (
                            WorkerModel { phase: WorkerPhase::Fetching, ..self },
                            WorkerStep {
                                persist: false,
                                action: WorkerAction::ReadBatch {
                                    after_id: self.state.last_successful_id,
                                    limit: self.config.batch_limit,
                                },
                            },
                        )
                    } else {
                        (
                            WorkerModel { phase: WorkerPhase::Idle, ..self },
                            WorkerStep {
                                persist: false,
                                action: WorkerAction::Sleep { ms: self.config.recheck_delay_ms },
                            },
                        )
                    }
                },
                WorkerEvent::Resolved { is_target } => {
                    if self.phase != WorkerPhase::Resolving {
                        self.ignore()
                    } else if is_target {
                        (
                            WorkerModel { phase: WorkerPhase::Sending, ..self },
                            WorkerStep {
                                persist: false,
                                action: WorkerAction::Send { activity_id: self.head().id },
                            },
                        )
                    } else {
                        self.advance()
                    }
                },
                WorkerEvent::Delivered => {
                    if self.phase != WorkerPhase::Sending {
                        self.ignore()
                    } else {
                        self.advance()
                    }
                },
                WorkerEvent::Failed { now } => {
                    if self.phase != WorkerPhase::Sending {
                        self.ignore()
                    } else {
                        let state = self.state.failed(now);
                        (
                            WorkerModel { state, phase: WorkerPhase::Backoff, ..self },
                            WorkerStep {
                                persist: true,
                                action: WorkerAction::Sleep {
                                    ms: self.config.retry.delay_spec(state.failures()) as u64,
                                },
                            },
                        )
                    }
                },
                WorkerEvent::Gone => {
                    if self.phase != WorkerPhase::Sending {
                        self.ignore()
                    } else {
                        (
                            WorkerModel { phase: WorkerPhase::Stopped, ..self },
                            WorkerStep { persist: false, action: WorkerAction::MarkDead },
                        )
                    }
                },
            }
        }
    }

    /// What the worker becomes, and what it answers, when the log has been
    /// read. A batch is taken up while the worker waits for one, if it is not
    /// empty and follows the cursor. Any other batch is dropped, and the
    /// worker sleeps before it looks at the log again.
    pub open spec fn accept(self, batch: Seq<QueuedActivity>) -> (WorkerModel, WorkerStep) {
        if self.phase == WorkerPhase::Stopped {
            (self, WorkerStep { persist: false, action: WorkerAction::Stop })
        } else if self.phase != WorkerPhase::Fetching {
            self.ignore()
        } else if batch.len() > 0 && batch_follows(self.state.last_successful_id, batch) {
            (
                WorkerModel { phase: WorkerPhase::Resolving, pending: batch, next: 0, ..self },
                WorkerStep {
                    persist: false,
                    action: WorkerAction::ResolveTargets { activity_id: batch[0].id },
                },
            )
        } else {
            (
                WorkerModel { phase: WorkerPhase::Idle, ..self },
                WorkerStep {
                    persist: false,
                    action: WorkerAction::Sleep { ms: self.config.recheck_delay_ms },
                },
            )
        }
    }
}

/// The worker of one destination instance.
pub struct InstanceWorker {
    state: FederationQueueState,
    phase: WorkerPhase,
    pending: Vec<QueuedActivity>,
    next: usize,
    config: WorkerConfig,
}

impl View for InstanceWorker {
    type V = WorkerModel;

    closed spec fn view(&self) -> WorkerModel {
        WorkerModel {
            state: self.state,
            phase: self.phase,
            pending: self.pending@,
            next: self.next as nat,
            config: self.config,
        }
    }
}

/// Whether `batch` has ascending ids that all lie above `cursor`.
pub fn check_batch(cursor: i64, batch: &Vec<QueuedActivity>) -> (ok: bool)
    ensures
        ok == batch_follows(cursor, batch@),
{
    let mut last: i64 = cursor;
    let mut i: usize = 0;
    while i < batch.len()
        invariant
            i <= batch.len(),
            cursor <= last,
            batch_follows(cursor, batch@.take(i as int)),
            i > 0 ==> last == batch@[i - 1].id,
            i == 0 ==> last == cursor,
        decreases batch.len() - i,
    {
        if batch[i].id <= last {
            proof {
                if batch_follows(cursor, batch@) {
                    if i > 0 {
                        assert(batch@[i - 1].id < batch@[i as int].id);
                    } else {
                        assert(cursor < batch@[i as int].id);
                    }
                }
            }
            return false;
        }
        proof {
            let before = batch@.take(i as int);
            let after = batch@.take(i + 1);
            assert forall|k: int| 0 <= k < after.len() implies cursor < (#[trigger] after[k]).id by {
                if k < i {
                    assert(after[k] == before[k]);
                }
            }
            assert forall|k: int, l: int| 0 <= k < l < after.len() implies (#[trigger] after[k]).id
                < (#[trigger] after[l]).id by {
                if l < i {
                    assert(after[k] == before[k]);
                    assert(after[l] == before[l]);
                } else if k < i - 1 {
                    assert(after[k] == before[k]);
                    assert(before[i - 1] == after[i - 1]);
                    assert(before[k].id < before[i - 1].id);
                } else if k == i - 1 {
                    assert(after[k] == before[k]);
                }
            }
        }
        last = batch[i].id;
        i = i + 1;
    }
    assert(batch@.take(i as int) =~= batch@);
    true
}

impl InstanceWorker {
    /// What holds of every worker.
    pub open spec fn wf(&self) -> bool {
        self@.wf()
    }

    /// A worker that starts from a stored queue state.
    pub fn new(state: FederationQueueState, config: WorkerConfig) -> (worker: InstanceWorker)
        ensures
            worker@ == WorkerModel::start(state, config),
            worker.wf(),
    {
        let phase = if state.fail_count > 0 {
            WorkerPhase::Backoff
        } else {
            WorkerPhase::Idle
        };
        let worker = InstanceWorker { state, phase, pending: Vec::new(), next: 0, config };
        assert(worker@.pending.subrange(0, 0) =~= Seq::<QueuedActivity>::empty());
        worker
    }

    /// The queue state, as it is to be saved.
    pub fn state(&self) -> (state: FederationQueueState)
        ensures
            state == self@.state,
    {
        self.state
    }

    /// Where the worker stands.
    pub fn phase(&self) -> (phase: WorkerPhase)
        ensures
            phase == self@.phase,
    {
        self.phase
    }

    /// What the worker was started with.
    pub fn config(&self) -> (config: WorkerConfig)
        ensures
            config == self@.config,
    {
        self.config
    }

    /// The activity that is next, if a batch is at hand.
    pub fn head(&self) -> (head: Option<QueuedActivity>)
        requires
            self.wf(),
        ensures
            head == if self@.next < self@.pending.len() {
                Some(self@.head())
            } else {
                None
            },
    {
        if self.next < self.pending.len() {
            Some(self.pending[self.next])
        } else {
            None
        }
    }

    fn proceed(&mut self, persist: bool) -> (step: WorkerStep)
        ensures
            (final(self)@, step) == old(self)@.proceed(persist),
    {
        if self.next < self.pending.len() {
            self.phase = WorkerPhase::Resolving;
            WorkerStep {
                persist,
                action: WorkerAction::ResolveTargets { activity_id: self.pending[self.next].id },
            }
        } else {
            self.phase = WorkerPhase::Probing;
            WorkerStep { persist, action: WorkerAction::ProbeLatestId }
        }
    }

    fn advance(&mut self) -> (step: WorkerStep)
        requires
            old(self).wf(),
            old(self)@.next < old(self)@.pending.len(),
        ensures
            (final(self)@, step) == old(self)@.advance(),
    {
        let head = self.pending[self.next];
        let len: usize = self.pending.len();
        let next: usize = self.next + 1;
        self.state.record_success(head);
        self.next = next;
        self.proceed(true)
    }

    /// Takes an event and answers with what the driver is to do next.
    pub fn step(&mut self, event: WorkerEvent) -> (step: WorkerStep)
        requires
            old(self).wf(),
        ensures
            (final(self)@, step) == old(self)@.step(event),
            final(self).wf(),
    {
        proof {
            lemma_step_wf(self@, event);
        }
        let nothing = WorkerStep { persist: false, action: WorkerAction::Nothing };
        if self.phase == WorkerPhase::Stopped {
            return WorkerStep { persist: false, action: WorkerAction::Stop };
        }
        match event {
            WorkerEvent::Cancel | WorkerEvent::Blocked => {
                self.phase = WorkerPhase::Stopped;
                WorkerStep { persist: false, action: WorkerAction::Stop }
            },
            WorkerEvent::Wake { now } => {
                if self.phase == WorkerPhase::Idle {
                    self.proceed(false)
                } else if self.phase == WorkerPhase::Backoff {
                    let wait: u64 = self.state.retry_wait(&self.config.retry, now);
                    if wait == 0 {
                        self.proceed(false)
                    } else {
                        WorkerStep { persist: false, action: WorkerAction::Sleep { ms: wait } }
                    }
                } else {
                    nothing
                }
            },
            WorkerEvent::LatestId { latest_id } => {
                if self.phase != WorkerPhase::Probing {
                    nothing
                } else if latest_id > self.state.last_successful_id {
                    self.phase = WorkerPhase::Fetching;
                    WorkerStep {
                        persist: false,
                        action: WorkerAction::ReadBatch {
                            after_id: self.state.last_successful_id,
                            limit: self.config.batch_limit,
                        },
                    }
                } else {
                    self.phase = WorkerPhase::Idle;
                    WorkerStep {
                        persist: false,
                        action: WorkerAction::Sleep { ms: self.config.recheck_delay_ms },
                    }
                }
            },
            WorkerEvent::Resolved { is_target } => {
                if self.phase != WorkerPhase::Resolving {
                    nothing
                } else if is_target {
                    self.phase = WorkerPhase::Sending;
                    WorkerStep {
                        persist: false,
                        action: WorkerAction::Send { activity_id: self.pending[self.next].id },
                    }
                } else {
                    self.advance()
                }
            },
            WorkerEvent::Delivered => {
                if self.phase != WorkerPhase::Sending {
                    nothing
                } else {
                    self.advance()
                }
            },
            WorkerEvent::Failed { now } => {
                if self.phase != WorkerPhase::Sending {
                    nothing
                } else {
                    self.state.record_failure(now);
                    self.phase = WorkerPhase::Backoff;
                    let ms: u64 = self.state.retry_delay(&self.config.retry);
                    WorkerStep { persist: true, action: WorkerAction::Sleep { ms } }
                }
            },
            WorkerEvent::Gone => {
                if self.phase != WorkerPhase::Sending {
                    nothing
                } else {
                    self.phase = WorkerPhase::Stopped;
                    WorkerStep { persist: false, action: WorkerAction::MarkDead }
                }
            },
        }
    }

    /// Takes what was read from the log and answers with what the driver is
    /// to do next.
    pub fn accept_batch(&mut self, batch: Vec<QueuedActivity>) -> (step: WorkerStep)
        requires
            old(self).wf(),
        ensures
            (final(self)@, step) == old(self)@.accept(batch@),
            final(self).wf(),
    {
        proof {
            lemma_accept_wf(self@, batch@);
        }
        if self.phase == WorkerPhase::Stopped {
            WorkerStep { persist: false, action: WorkerAction::Stop }
        } else if self.phase != WorkerPhase::Fetching {
            WorkerStep { persist: false, action: WorkerAction::Nothing }
        } else if batch.len() > 0 && check_batch(self.state.last_successful_id, &batch) {
            let activity_id: i64 = batch[0].id;
            self.pending = batch;
            self.next = 0;
            self.phase = WorkerPhase::Resolving;
            WorkerStep { persist: false, action: WorkerAction::ResolveTargets { activity_id } }
        } else {
            self.phase = WorkerPhase::Idle;
            WorkerStep {
                persist: false,
                action: WorkerAction::Sleep { ms: self.config.recheck_delay_ms },
            }
        }
    }
}

/// What is left of a batch after its head still follows a cursor that has
/// moved to the head.
pub proof fn lemma_advance_wf(w: WorkerModel)
    requires
        w.wf(),
        w.next < w.pending.len(),
    ensures
        w.advance().0.wf(),
        w.advance().0.state.last_successful_id == w.head().id,
        w.state.last_successful_id < w.head().id,
{
    let rest = w.pending.subrange(w.next as int, w.pending.len() as int);
    let after = w.pending.subrange(w.next + 1 as int, w.pending.len() as int);
    assert(rest[0] == w.head());
    assert forall|i: int| 0 <= i < after.len() implies w.head().id < (#[trigger] after[i]).id by {
        assert(after[i] == rest[i + 1]);
    }
    assert forall|i: int, j: int| 0 <= i < j < after.len() implies (#[trigger] after[i]).id < (
    #[trigger] after[j]).id by {
        assert(after[i] == rest[i + 1]);
        assert(after[j] == rest[j + 1]);
    }
}

/// Every step keeps a worker well formed.
pub proof fn lemma_step_wf(w: WorkerModel, event: WorkerEvent)
    requires
        w.wf(),
    ensures
        w.step(event).0.wf(),
{
    if w.next < w.pending.len() {
        lemma_advance_wf(w);
    }
}

/// Taking a batch keeps a worker well formed.
pub proof fn lemma_accept_wf(w: WorkerModel, batch: Seq<QueuedActivity>)
    requires
        w.wf(),
    ensures
        w.accept(batch).0.wf(),
{
    assert(batch.subrange(0, batch.len() as int) =~= batch);
}

} // verus!

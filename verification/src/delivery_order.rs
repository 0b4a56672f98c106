//! What holds of a worker over any course of events: deliveries are
//! attempted in the order of the activity log, the cursor only moves forward,
//! and a worker that starts from a saved cursor goes on right behind it.

use crate::queue::{FederationQueueState, QueuedActivity};
use crate::worker::{
    batch_follows, lemma_accept_wf, lemma_advance_wf, lemma_step_wf, WorkerAction, WorkerConfig,
    WorkerEvent, WorkerModel, WorkerPhase, WorkerStep,
};
use vstd::prelude::*;

verus! {

/// One thing that a driver hands to a worker.
pub enum WorkerInput {
    Event(WorkerEvent),
    Batch(Seq<QueuedActivity>),
}

/// The worker takes one input.
pub open spec fn feed(w: WorkerModel, input: WorkerInput) -> (WorkerModel, WorkerStep) {
    match input {
        WorkerInput::Event(event) => w.step(event),
        WorkerInput::Batch(batch) => w.accept(batch),
    }
}

/// The worker takes the inputs one after the other: what it has become, and
/// all its answers.
pub open spec fn run(w: WorkerModel, inputs: Seq<WorkerInput>) -> (WorkerModel, Seq<WorkerStep>)
    decreases inputs.len(),
{
    if inputs.len() == 0 {
        (w, Seq::empty())
    } else {
        let before = run(w, inputs.drop_last());
        let last = feed(before.0, inputs.last());
        (last.0, before.1.push(last.1))
    }
}

/// The answer asks for a delivery of the activity `id`.
pub open spec fn sends(step: WorkerStep, id: i64) -> bool {
    step.action == (WorkerAction::Send { activity_id: id })
}

/// An input after which the cursor may have moved: a delivery that was
/// accepted, or an activity that is none of the destination's business.
pub open spec fn completes(input: WorkerInput) -> bool {
    match input {
        WorkerInput::Event(WorkerEvent::Delivered) => true,
        WorkerInput::Event(WorkerEvent::Resolved { is_target }) => !is_target,
        _ => false,
    }
}

/// Every delivery asked for so far is behind the cursor, or is that of the
/// activity that is next.
spec fn attempts_accounted(w: WorkerModel, steps: Seq<WorkerStep>) -> bool {
    forall|k: int, id: i64|
        0 <= k < steps.len() && #[trigger] sends(steps[k], id) ==> id
            <= w.state.last_successful_id || (w.next < w.pending.len() && id == w.head().id)
}

/// One input: the worker stays well formed, the cursor does not go back, and
/// a delivery is asked for only of the activity that is next, which lies
/// beyond the cursor.
proof fn lemma_feed(w: WorkerModel, input: WorkerInput)
    requires
        w.wf(),
    ensures
        feed(w, input).0.wf(),
        feed(w, input).0.state.last_successful_id >= w.state.last_successful_id,
        feed(w, input).0.config == w.config,
        !completes(input) ==> feed(w, input).0.state.last_successful_id
            == w.state.last_successful_id,
        forall|id: i64| #[trigger]
            sends(feed(w, input).1, id) ==> {
                &&& w.next < w.pending.len()
                &&& id == w.head().id
                &&& id > w.state.last_successful_id
                &&& feed(w, input).0.state.last_successful_id == w.state.last_successful_id
                &&& feed(w, input).0.pending == w.pending
                &&& feed(w, input).0.next == w.next
            },
        w.next < w.pending.len() ==> {
            ||| (feed(w, input).0.pending == w.pending && feed(w, input).0.next == w.next)
            ||| feed(w, input).0.state.last_successful_id >= w.head().id
        },
        feed(w, input).0.state.last_successful_id != w.state.last_successful_id ==> w.next
            < w.pending.len() && feed(w, input).0.state.last_successful_id == w.head().id,
        (feed(w, input).0.pending == w.pending && feed(w, input).0.next >= w.next) || input
            == WorkerInput::Batch(feed(w, input).0.pending),
{
    match input {
        WorkerInput::Event(event) => {
            lemma_step_wf(w, event);
        },
        WorkerInput::Batch(batch) => {
            lemma_accept_wf(w, batch);
        },
    }
    if w.next < w.pending.len() {
        lemma_advance_wf(w);
        let rest = w.pending.subrange(w.next as int, w.pending.len() as int);
        assert(rest[0] == w.head());
    }
}

/// The answers to the first inputs do not depend on what comes later.
pub proof fn lemma_run_prefix(w: WorkerModel, inputs: Seq<WorkerInput>, n: int)
    requires
        0 <= n <= inputs.len(),
    ensures
        run(w, inputs.take(n)).1 == run(w, inputs).1.take(n),
        run(w, inputs).1.len() == inputs.len(),
    decreases inputs.len(),
{
    if inputs.len() == 0 {
        assert(inputs.take(n) =~= inputs);
        assert(run(w, inputs).1.take(n) =~= run(w, inputs).1);
    } else if n == inputs.len() {
        assert(inputs.take(n) =~= inputs);
        lemma_run_prefix(w, inputs.drop_last(), n - 1);
        assert(run(w, inputs).1.take(n) =~= run(w, inputs).1);
    } else {
        lemma_run_prefix(w, inputs.drop_last(), n);
        assert(inputs.drop_last().take(n) =~= inputs.take(n));
        assert(run(w, inputs.drop_last()).1.take(n) =~= run(w, inputs).1.take(n));
    }
}

proof fn lemma_run_accounted(w: WorkerModel, inputs: Seq<WorkerInput>)
    requires
        w.wf(),
    ensures
        run(w, inputs).0.wf(),
        run(w, inputs).0.config == w.config,
        run(w, inputs).1.len() == inputs.len(),
        run(w, inputs).0.state.last_successful_id >= w.state.last_successful_id,
        attempts_accounted(run(w, inputs).0, run(w, inputs).1),
        forall|k: int, id: i64|
            0 <= k < inputs.len() && #[trigger] sends(run(w, inputs).1[k], id) ==> id
                > w.state.last_successful_id,
    decreases inputs.len(),
{
    if inputs.len() > 0 {
        let before = run(w, inputs.drop_last());
        lemma_run_accounted(w, inputs.drop_last());
        lemma_feed(before.0, inputs.last());
        let after = feed(before.0, inputs.last());
        let steps = before.1.push(after.1);
        assert forall|k: int, id: i64| 0 <= k < steps.len() && #[trigger] sends(
            steps[k],
            id,
        ) implies id <= after.0.state.last_successful_id || (after.0.next < after.0.pending.len()
            && id == after.0.head().id) by {
            if k < before.1.len() {
                assert(sends(before.1[k], id));
            } else {
                assert(sends(after.1, id));
            }
        }
        assert forall|k: int, id: i64| 0 <= k < inputs.len() && #[trigger] sends(
            steps[k],
            id,
        ) implies id > w.state.last_successful_id by {
            if k < before.1.len() {
                assert(sends(before.1[k], id));
            } else {
                assert(sends(after.1, id));
            }
        }
    }
}

/// Over any course of events the cursor never goes back.
pub proof fn lemma_cursor_monotonic(w: WorkerModel, inputs: Seq<WorkerInput>)
    requires
        w.wf(),
    ensures
        run(w, inputs).0.wf(),
        run(w, inputs).0.state.last_successful_id >= w.state.last_successful_id,
{
    lemma_run_accounted(w, inputs);
}

/// Deliveries are attempted in the order of the log. If the worker asks for
/// a delivery of `earlier` and, later on, for one of `later`, then `earlier`
/// is not above `later`; and if the two differ, the cursor had reached
/// `earlier` before `later` was attempted: that activity had been delivered,
/// or found to be none of the destination's business.
pub proof fn lemma_attempts_in_order(
    w: WorkerModel,
    inputs: Seq<WorkerInput>,
    i: int,
    j: int,
    earlier: i64,
    later: i64,
)
    requires
        w.wf(),
        0 <= i < j < inputs.len(),
        sends(run(w, inputs).1[i], earlier),
        sends(run(w, inputs).1[j], later),
    ensures
        earlier <= later,
        earlier < later ==> run(w, inputs.take(j)).0.state.last_successful_id >= earlier,
        later > run(w, inputs.take(j)).0.state.last_successful_id,
{
    let upto = inputs.take(j + 1);
    lemma_run_prefix(w, inputs, j + 1);
    assert(upto.drop_last() =~= inputs.take(j));
    let before = run(w, inputs.take(j));
    lemma_run_accounted(w, inputs.take(j));
    lemma_feed(before.0, upto.last());
    let after = feed(before.0, upto.last());
    assert(run(w, upto).1 == before.1.push(after.1));
    assert(run(w, inputs).1.take(j + 1)[j] == run(w, inputs).1[j]);
    assert(run(w, inputs).1.take(j + 1)[i] == run(w, inputs).1[i]);
    assert(sends(after.1, later));
    assert(before.1[i] == run(w, upto).1[i]);
    assert(sends(before.1[i], earlier));
}

/// A worker never asks for a delivery of an activity at or behind the cursor
/// that it started with: what was done before a restart is not sent again.
pub proof fn lemma_no_redelivery(w: WorkerModel, inputs: Seq<WorkerInput>, k: int, id: i64)
    requires
        w.wf(),
        0 <= k < inputs.len(),
        sends(run(w, inputs).1[k], id),
    ensures
        id > w.state.last_successful_id,
{
    lemma_run_accounted(w, inputs);
}

/// While nothing is delivered and nothing is skipped, the cursor stays where
/// it is, however often deliveries fail.
pub proof fn lemma_outage_keeps_cursor(w: WorkerModel, inputs: Seq<WorkerInput>)
    requires
        w.wf(),
        forall|k: int| 0 <= k < inputs.len() ==> !completes(#[trigger] inputs[k]),
    ensures
        run(w, inputs).0.state.last_successful_id == w.state.last_successful_id,
        run(w, inputs).0.wf(),
    decreases inputs.len(),
{
    if inputs.len() > 0 {
        let head = inputs.drop_last();
        assert forall|k: int| 0 <= k < head.len() implies !completes(#[trigger] head[k]) by {
            assert(head[k] == inputs[k]);
        }
        lemma_outage_keeps_cursor(w, head);
        assert(!completes(inputs[inputs.len() - 1]));
        lemma_feed(run(w, head).0, inputs.last());
    }
}

/// A worker that starts from a saved state without failures, at a cursor
/// `k`, reads the log right behind `k` as soon as the log has more, and turns
/// to the first activity that it is given, which lies beyond `k`.
pub proof fn lemma_resume_behind_cursor(
    state: FederationQueueState,
    config: WorkerConfig,
    now: i64,
    latest_id: i64,
    batch: Seq<QueuedActivity>,
)
    requires
        state.fail_count <= 0,
        latest_id > state.last_successful_id,
        batch.len() > 0,
        batch_follows(state.last_successful_id, batch),
    ensures
        WorkerModel::start(state, config).wf(),
        WorkerModel::start(state, config).state == state,
        run(
            WorkerModel::start(state, config),
            seq![
                WorkerInput::Event(WorkerEvent::Wake { now }),
                WorkerInput::Event(WorkerEvent::LatestId { latest_id }),
                WorkerInput::Batch(batch),
            ],
        ).1 == seq![
            WorkerStep { persist: false, action: WorkerAction::ProbeLatestId },
            WorkerStep {
                persist: false,
                action: WorkerAction::ReadBatch {
                    after_id: state.last_successful_id,
                    limit: config.batch_limit,
                },
            },
            WorkerStep {
                persist: false,
                action: WorkerAction::ResolveTargets { activity_id: batch[0].id },
            },
        ],
        batch[0].id > state.last_successful_id,
{
    let w0 = WorkerModel::start(state, config);
    assert(w0.pending.subrange(0, 0) =~= Seq::<QueuedActivity>::empty());
    let i0 = WorkerInput::Event(WorkerEvent::Wake { now });
    let i1 = WorkerInput::Event(WorkerEvent::LatestId { latest_id });
    let i2 = WorkerInput::Batch(batch);
    let inputs = seq![i0, i1, i2];
    let in2 = seq![i0, i1];
    let in1 = seq![i0];
    assert(inputs.drop_last() =~= in2);
    assert(in2.drop_last() =~= in1);
    assert(in1.drop_last() =~= Seq::<WorkerInput>::empty());
    assert(run(w0, in1.drop_last()).0 == w0);
    assert(run(w0, in1.drop_last()).1 =~= Seq::<WorkerStep>::empty());
    let r1 = run(w0, in1);
    assert(r1.0.phase == WorkerPhase::Probing);
    let r2 = run(w0, in2);
    assert(r2.0.phase == WorkerPhase::Fetching);
    let r3 = run(w0, inputs);
    assert(r3.1 =~= seq![
        WorkerStep { persist: false, action: WorkerAction::ProbeLatestId },
        WorkerStep {
            persist: false,
            action: WorkerAction::ReadBatch {
                after_id: state.last_successful_id,
                limit: config.batch_limit,
            },
        },
        WorkerStep {
            persist: false,
            action: WorkerAction::ResolveTargets { activity_id: batch[0].id },
        },
    ]);
}

/// An input that ends a delivery: its outcome, or the end of the worker.
pub open spec fn ends_delivery(input: WorkerInput) -> bool {
    match input {
        WorkerInput::Event(WorkerEvent::Delivered) => true,
        WorkerInput::Event(WorkerEvent::Failed { now }) => true,
        WorkerInput::Event(WorkerEvent::Gone) => true,
        WorkerInput::Event(WorkerEvent::Cancel) => true,
        WorkerInput::Event(WorkerEvent::Blocked) => true,
        _ => false,
    }
}

/// After a delivery was asked for, the worker stays as it is, waiting for
/// the outcome, whatever else it is told.
proof fn lemma_still_sending(w: WorkerModel, inputs: Seq<WorkerInput>, j: int, n: int, id: i64)
    requires
        w.wf(),
        0 <= j < n <= inputs.len(),
        sends(run(w, inputs.take(j + 1)).1[j], id),
        forall|m: int| j < m < n ==> !ends_delivery(#[trigger] inputs[m]),
    ensures
        run(w, inputs.take(n)).0.phase == WorkerPhase::Sending,
        run(w, inputs.take(n)).0.wf(),
    decreases n - j,
{
    lemma_run_accounted(w, inputs.take(n - 1));
    assert(inputs.take(n).drop_last() =~= inputs.take(n - 1));
    assert(inputs.take(n).last() == inputs[n - 1]);
    let before = run(w, inputs.take(n - 1)).0;
    lemma_feed(before, inputs[n - 1]);
    if n == j + 1 {
        assert(run(w, inputs.take(n)).1.last() == feed(before, inputs[n - 1]).1);
    } else {
        lemma_still_sending(w, inputs, j, n - 1, id);
        assert(!ends_delivery(inputs[n - 1]));
    }
}

/// One delivery at a time: between two deliveries that a worker asks for,
/// it has been told how the first one ended.
pub proof fn lemma_one_delivery_at_a_time(
    w: WorkerModel,
    inputs: Seq<WorkerInput>,
    j: int,
    k: int,
    first: i64,
    second: i64,
)
    requires
        w.wf(),
        0 <= j < k < inputs.len(),
        sends(run(w, inputs).1[j], first),
        sends(run(w, inputs).1[k], second),
    ensures
        exists|m: int| j < m < k && ends_delivery(#[trigger] inputs[m]),
{
    if forall|m: int| j < m < k ==> !ends_delivery(#[trigger] inputs[m]) {
        lemma_run_prefix(w, inputs, j + 1);
        assert(run(w, inputs).1.take(j + 1)[j] == run(w, inputs).1[j]);
        lemma_still_sending(w, inputs, j, k, first);
        let before = run(w, inputs.take(k)).0;
        lemma_run_prefix(w, inputs, k + 1);
        assert(run(w, inputs).1.take(k + 1)[k] == run(w, inputs).1[k]);
        assert(inputs.take(k + 1).drop_last() =~= inputs.take(k));
        assert(inputs.take(k + 1).last() == inputs[k]);
        assert(run(w, inputs.take(k + 1)).1.last() == feed(before, inputs[k]).1);
        lemma_feed(before, inputs[k]);
        assert(false);
    }
}

/// The input is a batch that holds an activity with the id.
pub open spec fn batch_holds(input: WorkerInput, id: i64) -> bool {
    match input {
        WorkerInput::Batch(batch) => exists|i: int|
            0 <= i < batch.len() && (#[trigger] batch[i]).id == id,
        WorkerInput::Event(_) => false,
    }
}

/// One of the batches among the inputs holds an activity with the id.
pub open spec fn read_from_log(inputs: Seq<WorkerInput>, id: i64) -> bool {
    exists|k: int| 0 <= k < inputs.len() && batch_holds(#[trigger] inputs[k], id)
}

proof fn lemma_read_from_log_extends(inputs: Seq<WorkerInput>, id: i64)
    requires
        inputs.len() > 0,
        read_from_log(inputs.drop_last(), id) || batch_holds(inputs.last(), id),
    ensures
        read_from_log(inputs, id),
{
    if read_from_log(inputs.drop_last(), id) {
        let k = choose|k: int|
            0 <= k < inputs.drop_last().len() && batch_holds(#[trigger] inputs.drop_last()[k], id);
        assert(inputs.drop_last()[k] == inputs[k]);
        assert(batch_holds(inputs[k], id));
    } else {
        assert(batch_holds(inputs[inputs.len() - 1], id));
    }
}

proof fn lemma_run_from_log(w: WorkerModel, inputs: Seq<WorkerInput>)
    requires
        w.wf(),
        w.next == w.pending.len(),
    ensures
        run(w, inputs).0.wf(),
        run(w, inputs).0.state.last_successful_id == w.state.last_successful_id || read_from_log(
            inputs,
            run(w, inputs).0.state.last_successful_id,
        ),
        forall|i: int|
            run(w, inputs).0.next <= i < run(w, inputs).0.pending.len() ==> read_from_log(
                inputs,
                (#[trigger] run(w, inputs).0.pending[i]).id,
            ),
    decreases inputs.len(),
{
    if inputs.len() > 0 {
        let before = run(w, inputs.drop_last()).0;
        lemma_run_from_log(w, inputs.drop_last());
        lemma_feed(before, inputs.last());
        let after = feed(before, inputs.last()).0;
        if after.state.last_successful_id != before.state.last_successful_id {
            assert(before.next < before.pending.len());
            assert(after.state.last_successful_id == before.head().id);
            assert(read_from_log(inputs.drop_last(), before.pending[before.next as int].id));
            lemma_read_from_log_extends(inputs, after.state.last_successful_id);
        } else if read_from_log(inputs.drop_last(), before.state.last_successful_id) {
            lemma_read_from_log_extends(inputs, after.state.last_successful_id);
        }
        assert forall|i: int| after.next <= i < after.pending.len() implies read_from_log(
            inputs,
            (#[trigger] after.pending[i]).id,
        ) by {
            if after.pending == before.pending && after.next >= before.next {
                assert(read_from_log(inputs.drop_last(), before.pending[i].id));
                lemma_read_from_log_extends(inputs, after.pending[i].id);
            } else {
                assert(inputs.last() == WorkerInput::Batch(after.pending));
                assert(batch_holds(inputs.last(), after.pending[i].id));
                lemma_read_from_log_extends(inputs, after.pending[i].id);
            }
        }
    }
}

/// The cursor points into the log: wherever a worker that starts without a
/// batch at hand has moved its cursor, there is an activity that it was
/// given from the log. So the cursor never passes the latest activity.
pub proof fn lemma_cursor_points_into_log(w: WorkerModel, inputs: Seq<WorkerInput>)
    requires
        w.wf(),
        w.next == w.pending.len(),
    ensures
        run(w, inputs).0.state.last_successful_id == w.state.last_successful_id || read_from_log(
            inputs,
            run(w, inputs).0.state.last_successful_id,
        ),
{
    lemma_run_from_log(w, inputs);
}

} // verus!

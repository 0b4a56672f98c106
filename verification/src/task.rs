//! The life of a task that runs until it is cancelled.
//!
//! The task's function is run again whenever it returns or panics, until
//! shutdown is asked for. Shutdown waits for the function to return, but only
//! for so long: then the task is aborted.

use vstd::prelude::*;

verus! {

/// Where a task stands.
#[derive(Clone, Copy, Debug, PartialEq, Eq, Structural)]
pub enum TaskPhase {
    /// The function runs, or is about to be run again.
    Running,
    /// Shutdown was asked for; the function may still run.
    Cancelling,
    /// The task has ended after shutdown was asked for.
    Finished,
    /// The task has ended by a fault of its own after shutdown was asked for.
    Failed,
    /// The task did not end in time and was aborted.
    Aborted,
}

/// What the driver reports.
#[derive(Clone, Copy, Debug, PartialEq, Eq, Structural)]
pub enum TaskEvent {
    /// The task's function has returned.
    Exited,
    /// The task's function has panicked.
    Panicked,
    /// The task has ended, as seen by the one who waits for it.
    Joined,
    /// The task has ended by a panic, as seen by the one who waits for it.
    JoinFailed,
    /// The time allowed for shutdown is over.
    TimedOut,
}

/// What the driver is to do.
#[derive(Clone, Copy, Debug, PartialEq, Eq, Structural)]
pub enum TaskAction {
    /// Nothing.
    Nothing,
    /// Log that the function returned or panicked, and run it again.
    Restart,
    /// Leave the loop that runs the function.
    Leave,
    /// Signal cancellation, then wait for the task to end, at most so long.
    SignalAndWait { timeout_ms: u64 },
    /// Report a clean shutdown.
    ReportStopped,
    /// Report that the task did not end cleanly.
    ReportFailed,
    /// Abort the task and report that shutdown timed out.
    AbortAndReportTimeout,
}

/// A task that is run in a loop until it is cancelled.
#[derive(Clone, Copy, Debug, PartialEq, Eq, Structural)]
pub struct CancellableTask {
    pub phase: TaskPhase,
    /// How long shutdown waits for the task to end, in milliseconds.
    pub timeout_ms: u64,
    /// How often the function was run again after it had returned or
    /// panicked.
    pub restarts: u64,
}

impl CancellableTask {
    /// The task has ended for good.
    pub open spec fn ended(self) -> bool {
        self.phase == TaskPhase::Finished || self.phase == TaskPhase::Failed || self.phase
            == TaskPhase::Aborted
    }

    /// The task after shutdown was asked for, and what the driver is to do.
    pub open spec fn cancelled(self) -> (CancellableTask, TaskAction) {
        if self.phase == TaskPhase::Running {
            (
                CancellableTask { phase: TaskPhase::Cancelling, ..self },
                TaskAction::SignalAndWait { timeout_ms: self.timeout_ms },
            )
        } else {
            (self, TaskAction::Nothing)
        }
    }

    /// The task after its function was run once more.
    pub open spec fn restarted(self) -> CancellableTask {
        CancellableTask {
            restarts: if self.restarts < u64::MAX {
                (self.restarts + 1) as u64
            } else {
                u64::MAX
            },
            ..self
        }
    }

    /// The task after `event`, and what the driver is to do. While nobody
    /// has asked for shutdown, the function is run again however it ended:
    /// by a return, or by a fault. Once shutdown is asked for, the loop is
    /// left when the function ends, and the task has ended for good when it is
    /// seen to end or the time allowed is over.
    pub open spec fn after(self, event: TaskEvent) -> (CancellableTask, TaskAction) {
        match self.phase {
            TaskPhase::Running => match event {
                TaskEvent::Exited | TaskEvent::Panicked | TaskEvent::JoinFailed => (
                    self.restarted(),
                    TaskAction::Restart,
                ),
                _ => (self, TaskAction::Nothing),
            },
            TaskPhase::Cancelling => match event {
                TaskEvent::Exited | TaskEvent::Panicked => (self, TaskAction::Leave),
                TaskEvent::Joined => (
                    CancellableTask { phase: TaskPhase::Finished, ..self },
                    TaskAction::ReportStopped,
                ),
                TaskEvent::JoinFailed => (
                    CancellableTask { phase: TaskPhase::Failed, ..self },
                    TaskAction::ReportFailed,
                ),
                TaskEvent::TimedOut => (
                    CancellableTask { phase: TaskPhase::Aborted, ..self },
                    TaskAction::AbortAndReportTimeout,
                ),
            },
            _ => (self, TaskAction::Nothing),
        }
    }

    /// A running task whose shutdown will wait `timeout_ms` milliseconds.
    pub fn spawn(timeout_ms: u64) -> (task: CancellableTask)
        ensures
            task == (CancellableTask { phase: TaskPhase::Running, timeout_ms, restarts: 0 }),
    {
        CancellableTask { phase: TaskPhase::Running, timeout_ms, restarts: 0 }
    }

    /// Asks for shutdown. A running task is to be signalled and waited for;
    /// on any other task this changes nothing.
    pub fn cancel(&mut self) -> (action: TaskAction)
        ensures
            (*final(self), action) == old(self).cancelled(),
    {
        if self.phase == TaskPhase::Running {
            self.phase = TaskPhase::Cancelling;
            TaskAction::SignalAndWait { timeout_ms: self.timeout_ms }
        } else {
            TaskAction::Nothing
        }
    }

    /// Takes an event and answers with what the driver is to do.
    pub fn on_event(&mut self, event: TaskEvent) -> (action: TaskAction)
        ensures
            (*final(self), action) == old(self).after(event),
    {
        match self.phase {
            TaskPhase::Running => match event {
                TaskEvent::Exited | TaskEvent::Panicked | TaskEvent::JoinFailed => {
                    if self.restarts < u64::MAX {
                        self.restarts = self.restarts + 1;
                    }
                    TaskAction::Restart
                },
                _ => TaskAction::Nothing,
            },
            TaskPhase::Cancelling => match event {
                TaskEvent::Exited | TaskEvent::Panicked => TaskAction::Leave,
                TaskEvent::Joined => {
                    self.phase = TaskPhase::Finished;
                    TaskAction::ReportStopped
                },
                TaskEvent::JoinFailed => {
                    self.phase = TaskPhase::Failed;
                    TaskAction::ReportFailed
                },
                TaskEvent::TimedOut => {
                    self.phase = TaskPhase::Aborted;
                    TaskAction::AbortAndReportTimeout
                },
            },
            _ => TaskAction::Nothing,
        }
    }

    /// Whether the task has ended for good.
    pub fn is_ended(&self) -> (ended: bool)
        ensures
            ended == self.ended(),
    {
        match self.phase {
            TaskPhase::Finished | TaskPhase::Failed | TaskPhase::Aborted => true,
            _ => false,
        }
    }
}

/// The task after a course of events.
pub open spec fn after_all(task: CancellableTask, events: Seq<TaskEvent>) -> CancellableTask
    decreases events.len(),
{
    if events.len() == 0 {
        task
    } else {
        after_all(task, events.drop_last()).after(events.last()).0
    }
}

/// A task that nobody cancels never ends: whatever happens, it is still
/// running, and every return and every panic of its function is answered by
/// a restart.
pub proof fn lemma_runs_until_cancelled(task: CancellableTask, events: Seq<TaskEvent>)
    requires
        task.phase == TaskPhase::Running,
    ensures
        after_all(task, events).phase == TaskPhase::Running,
        after_all(task, events).after(TaskEvent::Exited).1 == TaskAction::Restart,
        after_all(task, events).after(TaskEvent::Panicked).1 == TaskAction::Restart,
        after_all(task, events).after(TaskEvent::JoinFailed).1 == TaskAction::Restart,
    decreases events.len(),
{
    if events.len() > 0 {
        lemma_runs_until_cancelled(task, events.drop_last());
    }
}

/// Shutdown is bounded: once a running task is cancelled, it has ended for
/// good as soon as it is seen to end or the time allowed is over, whatever
/// its function did in between.
pub proof fn lemma_shutdown_is_bounded(
    task: CancellableTask,
    exits: Seq<TaskEvent>,
    end: TaskEvent,
)
    requires
        task.phase == TaskPhase::Running,
        forall|i: int|
            0 <= i < exits.len() ==> exits[i] == TaskEvent::Exited || exits[i]
                == TaskEvent::Panicked,
        end == TaskEvent::Joined || end == TaskEvent::JoinFailed || end == TaskEvent::TimedOut,
    ensures
        after_all(task.cancelled().0, exits).phase == TaskPhase::Cancelling,
        after_all(task.cancelled().0, exits).after(end).0.ended(),
        end == TaskEvent::TimedOut ==> after_all(task.cancelled().0, exits).after(end)
            == (
            CancellableTask { phase: TaskPhase::Aborted, ..task },
            TaskAction::AbortAndReportTimeout,
        ),
    decreases exits.len(),
{
    if exits.len() > 0 {
        lemma_shutdown_is_bounded(task, exits.drop_last(), end);
        assert(exits[exits.len() - 1] == TaskEvent::Exited || exits[exits.len() - 1]
            == TaskEvent::Panicked);
    }
    lemma_cancelling_keeps_counts(task.cancelled().0, exits);
}

/// While a task is being cancelled, its function changes nothing by ending.
proof fn lemma_cancelling_keeps_counts(task: CancellableTask, exits: Seq<TaskEvent>)
    requires
        task.phase == TaskPhase::Cancelling,
        forall|i: int|
            0 <= i < exits.len() ==> exits[i] == TaskEvent::Exited || exits[i]
                == TaskEvent::Panicked,
    ensures
        after_all(task, exits) == task,
    decreases exits.len(),
{
    if exits.len() > 0 {
        lemma_cancelling_keeps_counts(task, exits.drop_last());
        assert(exits[exits.len() - 1] == TaskEvent::Exited || exits[exits.len() - 1]
            == TaskEvent::Panicked);
    }
}

} // verus!

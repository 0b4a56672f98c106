use lemmy_federate::supervisor::{contains_id, is_live, Instance, Supervisor};
use lemmy_federate::task::{CancellableTask, TaskAction, TaskEvent, TaskPhase};

fn instance(id: i32, blocked: bool) -> Instance {
    Instance {
        id,
        domain: format!("instance{}.example", id),
        blocked,
        software: Some("lemmy".to_string()),
        version: None,
    }
}

fn sorted(ids: &Vec<i32>) -> Vec<i32> {
    let mut copy = ids.clone();
    copy.sort();
    copy
}

#[test]
fn one_worker_for_every_instance_that_is_not_blocked() {
    let mut supervisor = Supervisor::new();
    let instances = vec![instance(1, false), instance(2, true), instance(3, false)];
    let plan = supervisor.reconcile(&instances);
    assert_eq!(sorted(&plan.start), vec![1, 3]);
    assert!(plan.stop.is_empty());
    assert_eq!(sorted(supervisor.workers()), vec![1, 3]);
    assert!(supervisor.has_worker(1));
    assert!(!supervisor.has_worker(2));
}

#[test]
fn reconcile_again_changes_nothing() {
    let mut supervisor = Supervisor::new();
    let instances = vec![instance(1, false), instance(3, false)];
    supervisor.reconcile(&instances);
    let plan = supervisor.reconcile(&instances);
    assert!(plan.start.is_empty());
    assert!(plan.stop.is_empty());
    assert_eq!(sorted(supervisor.workers()), vec![1, 3]);
}

#[test]
fn blocking_stops_and_unblocking_starts() {
    let mut supervisor = Supervisor::new();
    supervisor.reconcile(&vec![instance(1, false), instance(2, false)]);
    let plan = supervisor.reconcile(&vec![instance(1, true), instance(2, false)]);
    assert_eq!(plan.stop, vec![1]);
    assert!(plan.start.is_empty());
    assert_eq!(sorted(supervisor.workers()), vec![2]);
    let plan = supervisor.reconcile(&vec![instance(1, false), instance(2, false)]);
    assert_eq!(plan.start, vec![1]);
    assert!(plan.stop.is_empty());
    assert_eq!(sorted(supervisor.workers()), vec![1, 2]);
}

#[test]
fn an_instance_that_is_no_longer_known_loses_its_worker() {
    let mut supervisor = Supervisor::new();
    supervisor.reconcile(&vec![instance(1, false), instance(2, false)]);
    let plan = supervisor.reconcile(&vec![instance(2, false)]);
    assert_eq!(plan.stop, vec![1]);
    assert_eq!(sorted(supervisor.workers()), vec![2]);
}

#[test]
fn an_instance_listed_twice_gets_one_worker() {
    let mut supervisor = Supervisor::new();
    let plan = supervisor.reconcile(&vec![instance(4, false), instance(4, false)]);
    assert_eq!(plan.start, vec![4]);
    assert_eq!(supervisor.workers(), &vec![4]);
    // a blocked entry wins over one that is not
    let plan = supervisor.reconcile(&vec![instance(4, false), instance(4, true)]);
    assert_eq!(plan.stop, vec![4]);
    assert!(supervisor.workers().is_empty());
}

#[test]
fn live_means_known_and_not_blocked() {
    let instances = vec![instance(1, false), instance(2, true)];
    assert!(is_live(&instances, 1));
    assert!(!is_live(&instances, 2));
    assert!(!is_live(&instances, 3));
    assert!(!is_live(&Vec::new(), 1));
    assert!(contains_id(&vec![5, 6], 6));
    assert!(!contains_id(&vec![5, 6], 7));
}

#[test]
fn a_task_is_restarted_until_it_is_cancelled() {
    let mut task = CancellableTask::spawn(5000);
    assert_eq!(task.phase, TaskPhase::Running);
    assert_eq!(task.timeout_ms, 5000);
    for round in 1..=3u64 {
        assert_eq!(task.on_event(TaskEvent::Exited), TaskAction::Restart);
        assert_eq!(task.restarts, round);
        assert_eq!(task.phase, TaskPhase::Running);
        assert!(!task.is_ended());
    }
    assert_eq!(task.on_event(TaskEvent::Joined), TaskAction::Nothing);
    assert_eq!(task.on_event(TaskEvent::TimedOut), TaskAction::Nothing);
    assert_eq!(task.phase, TaskPhase::Running);
}

#[test]
fn a_running_task_that_panics_is_restarted() {
    let mut task = CancellableTask::spawn(5000);
    assert_eq!(task.on_event(TaskEvent::Panicked), TaskAction::Restart);
    assert_eq!(task.restarts, 1);
    assert_eq!(task.phase, TaskPhase::Running);
    assert_eq!(task.on_event(TaskEvent::JoinFailed), TaskAction::Restart);
    assert_eq!(task.restarts, 2);
    assert_eq!(task.phase, TaskPhase::Running);
    assert!(!task.is_ended());
    assert_eq!(task.on_event(TaskEvent::Exited), TaskAction::Restart);
    assert_eq!(task.restarts, 3);
    task.restarts = u64::MAX;
    assert_eq!(task.on_event(TaskEvent::Panicked), TaskAction::Restart);
    assert_eq!(task.restarts, u64::MAX);
}

#[test]
fn a_panic_after_cancelling_ends_the_loop() {
    let mut task = CancellableTask::spawn(10);
    task.cancel();
    assert_eq!(task.on_event(TaskEvent::Panicked), TaskAction::Leave);
    assert_eq!(task.restarts, 0);
    assert_eq!(task.phase, TaskPhase::Cancelling);
    assert_eq!(task.on_event(TaskEvent::JoinFailed), TaskAction::ReportFailed);
    assert_eq!(task.phase, TaskPhase::Failed);
}

#[test]
fn a_cancelled_task_ends_cleanly() {
    let mut task = CancellableTask::spawn(5000);
    assert_eq!(task.cancel(), TaskAction::SignalAndWait { timeout_ms: 5000 });
    assert_eq!(task.phase, TaskPhase::Cancelling);
    assert_eq!(task.on_event(TaskEvent::Exited), TaskAction::Leave);
    assert_eq!(task.restarts, 0);
    assert_eq!(task.on_event(TaskEvent::Joined), TaskAction::ReportStopped);
    assert_eq!(task.phase, TaskPhase::Finished);
    assert!(task.is_ended());
    assert_eq!(task.cancel(), TaskAction::Nothing);
    assert_eq!(task.on_event(TaskEvent::Exited), TaskAction::Nothing);
}

#[test]
fn a_task_that_does_not_end_in_time_is_aborted() {
    let mut task = CancellableTask::spawn(10);
    task.cancel();
    assert_eq!(task.on_event(TaskEvent::TimedOut), TaskAction::AbortAndReportTimeout);
    assert_eq!(task.phase, TaskPhase::Aborted);
    assert!(task.is_ended());
    assert_eq!(task.on_event(TaskEvent::Joined), TaskAction::Nothing);
}

#[test]
fn a_task_that_panics_during_shutdown_is_reported() {
    let mut task = CancellableTask::spawn(10);
    task.cancel();
    assert_eq!(task.on_event(TaskEvent::JoinFailed), TaskAction::ReportFailed);
    assert_eq!(task.phase, TaskPhase::Failed);
}

#[test]
fn cancelling_twice_signals_once() {
    let mut task = CancellableTask::spawn(10);
    assert_eq!(task.cancel(), TaskAction::SignalAndWait { timeout_ms: 10 });
    assert_eq!(task.cancel(), TaskAction::Nothing);
    assert_eq!(task.phase, TaskPhase::Cancelling);
}

#[test]
fn restarts_are_counted_up_to_the_largest_number() {
    let mut task = CancellableTask::spawn(10);
    task.restarts = u64::MAX - 1;
    task.on_event(TaskEvent::Exited);
    assert_eq!(task.restarts, u64::MAX);
    assert_eq!(task.on_event(TaskEvent::Exited), TaskAction::Restart);
    assert_eq!(task.restarts, u64::MAX);
}

use lemmy_federate::backoff::RetryPolicy;
use lemmy_federate::queue::{FederationQueueState, QueuedActivity};

#[test]
fn delay_doubles_from_the_base() {
    let policy = RetryPolicy::new(1000, 60_000);
    assert_eq!(policy.delay(0), 0);
    assert_eq!(policy.delay(1), 1000);
    assert_eq!(policy.delay(2), 2000);
    assert_eq!(policy.delay(3), 4000);
    assert_eq!(policy.delay(4), 8000);
    assert_eq!(policy.delay(5), 16_000);
    assert_eq!(policy.delay(6), 32_000);
}

#[test]
fn delay_stops_at_the_maximum() {
    let policy = RetryPolicy::new(1000, 60_000);
    assert_eq!(policy.delay(7), 60_000);
    assert_eq!(policy.delay(8), 60_000);
    assert_eq!(policy.delay(1000), 60_000);
    assert_eq!(policy.delay(u32::MAX), 60_000);
}

#[test]
fn delay_never_decreases() {
    let policy = RetryPolicy::new(250, 3_600_000);
    let mut last = 0;
    for failures in 0..64u32 {
        let delay = policy.delay(failures);
        assert!(delay >= last);
        assert!(delay <= 3_600_000);
        last = delay;
    }
    assert_eq!(last, 3_600_000);
}

#[test]
fn delay_with_a_base_above_the_maximum() {
    let policy = RetryPolicy::new(5000, 3000);
    assert_eq!(policy.delay(0), 0);
    assert_eq!(policy.delay(1), 3000);
    assert_eq!(policy.delay(9), 3000);
}

#[test]
fn delay_with_a_base_of_zero() {
    let policy = RetryPolicy::new(0, 3000);
    assert_eq!(policy.delay(1), 0);
    assert_eq!(policy.delay(50), 0);
}

#[test]
fn delay_near_the_largest_numbers() {
    let policy = RetryPolicy::new(u64::MAX / 2 + 1, u64::MAX);
    assert_eq!(policy.delay(1), u64::MAX / 2 + 1);
    assert_eq!(policy.delay(2), u64::MAX);
    assert_eq!(policy.delay(3), u64::MAX);
}

#[test]
fn new_state_starts_at_zero() {
    let state = FederationQueueState::new(7);
    assert_eq!(state.instance_id, 7);
    assert_eq!(state.last_successful_id, 0);
    assert_eq!(state.fail_count, 0);
    assert_eq!(state.last_retry_at, None);
    assert_eq!(state.last_successful_published_time_at, None);
}

#[test]
fn success_moves_the_cursor_and_forgets_failures() {
    let mut state = FederationQueueState::new(1);
    state.record_failure(10);
    state.record_failure(20);
    assert_eq!(state.fail_count, 2);
    state.record_success(QueuedActivity { id: 5, created_at: 99 });
    assert_eq!(state.last_successful_id, 5);
    assert_eq!(state.fail_count, 0);
    assert_eq!(state.last_successful_published_time_at, Some(99));
    assert_eq!(state.last_retry_at, Some(20));
}

#[test]
fn success_never_moves_the_cursor_back() {
    let mut state = FederationQueueState::new(1);
    state.record_success(QueuedActivity { id: 9, created_at: 900 });
    state.record_success(QueuedActivity { id: 4, created_at: 400 });
    assert_eq!(state.last_successful_id, 9);
    assert_eq!(state.last_successful_published_time_at, Some(900));
}

#[test]
fn failure_keeps_the_cursor() {
    let mut state = FederationQueueState::new(1);
    state.record_success(QueuedActivity { id: 3, created_at: 1 });
    state.record_failure(1234);
    assert_eq!(state.last_successful_id, 3);
    assert_eq!(state.fail_count, 1);
    assert_eq!(state.last_retry_at, Some(1234));
}

#[test]
fn failure_count_saturates() {
    let mut state = FederationQueueState::new(1);
    state.fail_count = i32::MAX;
    state.record_failure(1);
    assert_eq!(state.fail_count, i32::MAX);
    state.fail_count = -5;
    state.record_failure(2);
    assert_eq!(state.fail_count, 1);
}

#[test]
fn retry_wait_counts_from_the_last_attempt() {
    let policy = RetryPolicy::new(1000, 60_000);
    let mut state = FederationQueueState::new(1);
    assert_eq!(state.retry_wait(&policy, 0), 0);
    state.record_failure(10_000);
    assert_eq!(state.retry_delay(&policy), 1000);
    assert_eq!(state.retry_wait(&policy, 10_000), 1000);
    assert_eq!(state.retry_wait(&policy, 10_400), 600);
    assert_eq!(state.retry_wait(&policy, 11_000), 0);
    assert_eq!(state.retry_wait(&policy, 99_000), 0);
    assert!(!state.retry_due(&policy, 10_999));
    assert!(state.retry_due(&policy, 11_000));
    state.record_failure(11_000);
    assert_eq!(state.retry_wait(&policy, 11_500), 1500);
}

#[test]
fn retry_wait_with_a_clock_that_went_back() {
    let policy = RetryPolicy::new(1000, 60_000);
    let mut state = FederationQueueState::new(1);
    state.record_failure(10_000);
    assert_eq!(state.retry_wait(&policy, 5_000), 1000);
    assert_eq!(state.retry_wait(&policy, i64::MIN), 1000);
    state.last_retry_at = Some(i64::MIN);
    assert_eq!(state.retry_wait(&policy, i64::MAX), 0);
}

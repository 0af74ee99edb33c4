use esplora_client::{
    backoff_delay_millis, is_status_retryable, run_retries, Reply, RetryState, RetryStep,
    RunOutcome, BASE_BACKOFF_MILLIS, DEFAULT_MAX_RETRIES,
};

#[test]
fn backoff_doubles_from_base() {
    assert_eq!(backoff_delay_millis(0), BASE_BACKOFF_MILLIS);
    assert_eq!(backoff_delay_millis(0), 256);
    assert_eq!(backoff_delay_millis(1), 512);
    assert_eq!(backoff_delay_millis(2), 1024);
    assert_eq!(backoff_delay_millis(5), 8192);
    for n in 1..50usize {
        assert_eq!(backoff_delay_millis(n), 2 * backoff_delay_millis(n - 1));
    }
}

#[test]
fn backoff_saturates_when_too_large() {
    assert_eq!(backoff_delay_millis(55), 256u64 << 55);
    assert_eq!(backoff_delay_millis(56), u64::MAX);
    assert_eq!(backoff_delay_millis(1000), u64::MAX);
}

#[test]
fn retryable_statuses() {
    assert!(is_status_retryable(429));
    assert!(is_status_retryable(500));
    assert!(is_status_retryable(503));
    assert!(!is_status_retryable(200));
    assert!(!is_status_retryable(400));
    assert!(!is_status_retryable(404));
    assert!(!is_status_retryable(502));
    assert!(!is_status_retryable(65536 + 429));
    assert!(!is_status_retryable(-1));
}

#[test]
fn retryable_reply_waits_once() {
    let s = RetryState::new();
    let (step, next) = s.step(Reply::Status(503), 3);
    assert_eq!(step, RetryStep::Wait(256));
    assert_eq!(next.attempts, 1);
    let (step, next) = next.step(Reply::Status(429), 3);
    assert_eq!(step, RetryStep::Wait(512));
    assert_eq!(next.attempts, 2);
}

#[test]
fn other_reply_is_delivered_at_once() {
    let s = RetryState { attempts: 2 };
    assert_eq!(s.step(Reply::Status(404), 6), (RetryStep::Deliver, s));
    assert_eq!(s.step(Reply::Status(200), 6), (RetryStep::Deliver, s));
    assert_eq!(RetryState::new().step(Reply::Status(500), 0), (RetryStep::Deliver, RetryState::new()));
}

#[test]
fn retries_stop_at_the_bound() {
    let replies = vec![Reply::Status(503); 10];
    let (outcome, waits) = run_retries(&replies, DEFAULT_MAX_RETRIES);
    assert_eq!(outcome, RunOutcome::Delivered(6));
    assert_eq!(waits, vec![256, 512, 1024, 2048, 4096, 8192]);
}

#[test]
fn retry_then_success() {
    let replies = vec![Reply::Status(429), Reply::Status(500), Reply::Status(200), Reply::Status(503)];
    let (outcome, waits) = run_retries(&replies, 6);
    assert_eq!(outcome, RunOutcome::Delivered(2));
    assert_eq!(waits, vec![256, 512]);
}

#[test]
fn transport_failure_is_not_retried() {
    let replies = vec![Reply::TransportFailure, Reply::Status(200)];
    let (outcome, waits) = run_retries(&replies, 6);
    assert_eq!(outcome, RunOutcome::Failed(0));
    assert!(waits.is_empty());
    assert_eq!(RetryState::new().step(Reply::TransportFailure, 6), (RetryStep::Fail, RetryState::new()));
}

#[test]
fn replies_run_out() {
    let replies = vec![Reply::Status(503), Reply::Status(503)];
    let (outcome, waits) = run_retries(&replies, 6);
    assert_eq!(outcome, RunOutcome::Exhausted);
    assert_eq!(waits, vec![256, 512]);
    let (outcome, waits) = run_retries(&Vec::new(), 6);
    assert_eq!(outcome, RunOutcome::Exhausted);
    assert!(waits.is_empty());
}

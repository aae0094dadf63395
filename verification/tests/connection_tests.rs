use hmy_web3::connection::{
    classify_failure, connect_start, connect_step, ConnectDecision, ConnectState,
    ConnectionAttemptOutcome, RetryPolicy, DEFAULT_RETRY_DELAY_MS,
};
use hmy_web3::error::Error;

fn transient() -> ConnectionAttemptOutcome {
    ConnectionAttemptOutcome::TransientFailure(Error::Transport("refused".to_string()))
}

#[test]
fn three_transient_failures_within_the_deadline_then_success() {
    let policy = RetryPolicy { retry_delay_ms: DEFAULT_RETRY_DELAY_MS, deadline_ms: 10_000 };
    let mut state: ConnectState = connect_start(policy);
    for attempt in 0..3u64 {
        let (next, decision) = connect_step(state, transient());
        assert_eq!(decision, ConnectDecision::RetryAfterDelay(1000));
        assert_eq!(next.elapsed_ms, (attempt + 1) * 1000);
        state = next;
    }
    let (_, decision) = connect_step(state, ConnectionAttemptOutcome::Success);
    assert_eq!(decision, ConnectDecision::Connected);
}

#[test]
fn deadline_of_two_seconds_times_out_with_the_timeout_error() {
    let policy = RetryPolicy { retry_delay_ms: DEFAULT_RETRY_DELAY_MS, deadline_ms: 2_000 };
    let state = connect_start(policy);
    let (state, decision) = connect_step(state, transient());
    assert_eq!(decision, ConnectDecision::RetryAfterDelay(1000));
    let (_, decision) = connect_step(state, transient());
    // The deadline wins: the caller sees the timeout, not the transport cause.
    assert_eq!(decision, ConnectDecision::Abort(Error::Timeout));
}

#[test]
fn fatal_failure_aborts_immediately_with_zero_retries() {
    let policy = RetryPolicy { retry_delay_ms: DEFAULT_RETRY_DELAY_MS, deadline_ms: 10_000 };
    let state = connect_start(policy);
    let cause = Error::Decode("malformed URL".to_string());
    let (after, decision) = connect_step(
        state,
        ConnectionAttemptOutcome::FatalFailure(cause.clone()),
    );
    assert_eq!(decision, ConnectDecision::Abort(cause));
    // No delay was consumed: the loop never slept.
    assert_eq!(after.elapsed_ms, 0);
}

#[test]
fn only_transport_failures_are_transient() {
    let transport = Error::Transport("down".to_string());
    assert!(transport.is_transient());
    assert_eq!(
        classify_failure(transport.clone()),
        ConnectionAttemptOutcome::TransientFailure(transport)
    );

    for fatal in [
        Error::Decode("bad".to_string()),
        Error::Timeout,
        Error::InvariantViolation("x".to_string()),
        Error::InvalidOutputType("y".to_string()),
    ] {
        assert!(!fatal.is_transient());
        assert_eq!(
            classify_failure(fatal.clone()),
            ConnectionAttemptOutcome::FatalFailure(fatal)
        );
    }
}

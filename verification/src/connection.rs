//! The bounded-retry policy for establishing a streaming connection.
//!
//! The policy is a small decision core driven by the outcome of each
//! connection attempt: a transport-level failure is worth another attempt
//! after a fixed delay, any other failure aborts at once, and an overall
//! deadline bounds the whole loop. When the deadline wins, the caller gets a
//! timeout error distinct from the last attempt's own cause.

use vstd::prelude::*;

use crate::error::Error;

verus! {

/// The process-wide default delay between two connection attempts, in
/// milliseconds, overridable per call.
pub const DEFAULT_RETRY_DELAY_MS: u64 = 1000;

/// A fixed retry delay under an overall deadline, both in milliseconds.
#[derive(Debug, Clone, Copy, PartialEq, Eq, Structural)]
pub struct RetryPolicy {
    pub retry_delay_ms: u64,
    pub deadline_ms: u64,
}

/// How one connection attempt ended. Never persisted; it only drives the
/// next decision.
#[derive(Debug, Clone, PartialEq, Eq)]
pub enum ConnectionAttemptOutcome {
    /// The transport connected; the caller holds the client.
    Success,
    /// A transport-level connection failure, worth another attempt.
    TransientFailure(Error),
    /// Anything else — a malformed URL, protocol or authorisation failure —
    /// which retrying cannot mend.
    FatalFailure(Error),
}

/// Classifies a failed attempt: exactly the transport-level failures are
/// transient, everything else is fatal.
pub fn classify_failure(e: Error) -> (r: ConnectionAttemptOutcome)
    ensures
        e is Transport ==> r == ConnectionAttemptOutcome::TransientFailure(e),
        !(e is Transport) ==> r == ConnectionAttemptOutcome::FatalFailure(e),
{
    if e.is_transient() {
        ConnectionAttemptOutcome::TransientFailure(e)
    } else {
        ConnectionAttemptOutcome::FatalFailure(e)
    }
}

/// The loop's whole state: the policy and how much of the deadline the
/// retry delays have consumed.
#[derive(Debug, Clone, Copy, PartialEq, Eq, Structural)]
pub struct ConnectState {
    pub policy: RetryPolicy,
    pub elapsed_ms: u64,
}

/// What the driver must do after one attempt.
#[derive(Debug, Clone, PartialEq, Eq)]
pub enum ConnectDecision {
    /// Keep the connected client; the loop is over.
    Connected,
    /// Sleep this many milliseconds, then attempt again.
    RetryAfterDelay(u64),
    /// Give up with this error.
    Abort(Error),
}

/// The decision after one attempt. A success connects; a fatal failure
/// aborts with its own cause and zero further attempts; a transient failure
/// buys one more attempt after the fixed delay, unless that delay would
/// reach the deadline, in which case the loop aborts with the distinct
/// timeout error, never with the underlying transport cause.
pub open spec fn spec_connect_step(s: ConnectState, outcome: ConnectionAttemptOutcome) -> (
    ConnectState,
    ConnectDecision,
) {
    match outcome {
        ConnectionAttemptOutcome::Success => (s, ConnectDecision::Connected),
        ConnectionAttemptOutcome::FatalFailure(e) => (s, ConnectDecision::Abort(e)),
        ConnectionAttemptOutcome::TransientFailure(_) => if s.elapsed_ms + s.policy.retry_delay_ms
            >= s.policy.deadline_ms {
            (s, ConnectDecision::Abort(Error::Timeout))
        } else {
            (
                ConnectState {
                    elapsed_ms: (s.elapsed_ms + s.policy.retry_delay_ms) as u64,
                    ..s
                },
                ConnectDecision::RetryAfterDelay(s.policy.retry_delay_ms),
            )
        },
    }
}

/// Begins a connection loop under the given policy.
pub fn connect_start(policy: RetryPolicy) -> (r: ConnectState)
    ensures
        r == (ConnectState { policy, elapsed_ms: 0 }),
{
    ConnectState { policy, elapsed_ms: 0 }
}

/// Consumes one attempt's outcome and decides what the driver does next.
pub fn connect_step(s: ConnectState, outcome: ConnectionAttemptOutcome) -> (r: (
    ConnectState,
    ConnectDecision,
))
    ensures
        r == spec_connect_step(s, outcome),
{
    match outcome {
        ConnectionAttemptOutcome::Success => (s, ConnectDecision::Connected),
        ConnectionAttemptOutcome::FatalFailure(e) => (s, ConnectDecision::Abort(e)),
        ConnectionAttemptOutcome::TransientFailure(_) => {
            let delay = s.policy.retry_delay_ms;
            if s.elapsed_ms >= s.policy.deadline_ms || delay >= s.policy.deadline_ms
                - s.elapsed_ms {
                (s, ConnectDecision::Abort(Error::Timeout))
            } else {
                (
                    ConnectState { elapsed_ms: s.elapsed_ms + delay, ..s },
                    ConnectDecision::RetryAfterDelay(delay),
                )
            }
        },
    }
}

/// A fatal failure aborts at once with its own cause — zero retries —
/// however much of the deadline is left.
pub proof fn lemma_fatal_aborts_immediately(s: ConnectState, e: Error)
    ensures
        spec_connect_step(s, ConnectionAttemptOutcome::FatalFailure(e)) == (
            s,
            ConnectDecision::Abort(e),
        ),
{
}

/// A transient failure is retried after exactly the fixed delay while the
/// deadline allows it; once the deadline is reached the abort carries the
/// timeout error, never the transport cause.
pub proof fn lemma_transient_retries_until_deadline(s: ConnectState, e: Error)
    ensures
        s.elapsed_ms + s.policy.retry_delay_ms < s.policy.deadline_ms ==> spec_connect_step(
            s,
            ConnectionAttemptOutcome::TransientFailure(e),
        ) == (
            ConnectState { elapsed_ms: (s.elapsed_ms + s.policy.retry_delay_ms) as u64, ..s },
            ConnectDecision::RetryAfterDelay(s.policy.retry_delay_ms),
        ),
        s.elapsed_ms + s.policy.retry_delay_ms >= s.policy.deadline_ms ==> spec_connect_step(
            s,
            ConnectionAttemptOutcome::TransientFailure(e),
        ) == (s, ConnectDecision::Abort(Error::Timeout)),
{
}

} // verus!

//! What the service makes of Temporal's answers.
//!
//! Every business workflow is started at most once under its fixed ID: an
//! "already exists" answer proves the target state and counts as success, a
//! rejected request is final, and anything else leaves the outcome unknown, to
//! be resolved by describing the same ID (never by starting another).

use vstd::prelude::*;

use crate::contracts::TaskStatus;

verus! {

/// gRPC status codes that the decisions below distinguish.
pub const GRPC_NOT_FOUND: i32 = 5;
pub const GRPC_ALREADY_EXISTS: i32 = 6;
pub const GRPC_INVALID_ARGUMENT: i32 = 3;
pub const GRPC_PERMISSION_DENIED: i32 = 7;
pub const GRPC_FAILED_PRECONDITION: i32 = 9;
pub const GRPC_UNAUTHENTICATED: i32 = 16;

/// Temporal's `WorkflowExecutionStatus` values.
pub const EXECUTION_RUNNING: i32 = 1;
pub const EXECUTION_COMPLETED: i32 = 2;
pub const EXECUTION_FAILED: i32 = 3;
pub const EXECUTION_CANCELED: i32 = 4;
pub const EXECUTION_TERMINATED: i32 = 5;
pub const EXECUTION_TIMED_OUT: i32 = 7;
pub const EXECUTION_PAUSED: i32 = 8;

/// Why a call to Temporal did not give a result.
#[derive(Debug, Clone, PartialEq, Eq)]
pub enum TemporalError {
    /// No service token could be had.
    Token(String),
    /// The start was refused; retrying the same request changes nothing.
    Rejected(String),
    /// The outcome is not known.
    Unknown(String),
    /// The input could not be encoded.
    Encode(String),
}

/// The result of starting a workflow.
#[derive(Debug, Clone, PartialEq, Eq)]
pub enum Started {
    /// This call created the execution.
    Created { run_id: String },
    /// An execution with this workflow ID exists already. This is no failure:
    /// it proves the target state holds.
    AlreadyStarted,
}

/// The latest run of a workflow ID, as a describe call observed it.
#[derive(Debug, Clone, PartialEq, Eq)]
pub struct Observed {
    pub run_id: String,
    pub first_run_id: String,
    pub history_length: i64,
    pub state: ObservedState,
}

/// The state of an observed run.
#[derive(Debug, Clone, Copy, PartialEq, Eq, Structural)]
pub enum ObservedState {
    /// Still running (a paused run is not closed).
    Open,
    /// Closed, with the task status it maps to.
    Closed(TaskStatus),
    /// A status value this client does not know; taken neither as running nor
    /// as closed.
    Unrecognized(i32),
}

/// How a failed start call is read.
#[derive(Debug, Clone, Copy, PartialEq, Eq, Structural)]
pub enum StartFailure {
    /// The ID exists: success.
    AlreadyStarted,
    /// Refused: final.
    Rejected,
    /// Outcome unknown: describe the same ID.
    Unknown,
}

/// The reading of a failed start's gRPC code.
pub open spec fn start_failure_of(code: i32) -> StartFailure {
    if code == GRPC_ALREADY_EXISTS {
        StartFailure::AlreadyStarted
    } else if code == GRPC_INVALID_ARGUMENT || code == GRPC_PERMISSION_DENIED || code == GRPC_NOT_FOUND || code
        == GRPC_FAILED_PRECONDITION {
        StartFailure::Rejected
    } else {
        StartFailure::Unknown
    }
}

/// Reads a failed start by its gRPC code.
pub fn start_failure(code: i32) -> (r: StartFailure)
    ensures
        r == start_failure_of(code),
{
    if code == GRPC_ALREADY_EXISTS {
        StartFailure::AlreadyStarted
    } else if code == GRPC_INVALID_ARGUMENT || code == GRPC_PERMISSION_DENIED || code == GRPC_NOT_FOUND || code
        == GRPC_FAILED_PRECONDITION {
        StartFailure::Rejected
    } else {
        StartFailure::Unknown
    }
}

/// The result of a failed start: `AlreadyStarted` for an existing ID, the
/// server's message as a rejection, or an unknown outcome with the code's
/// description and the message.
pub fn start_error_result(code: i32, message: String, description: String) -> (r: Result<Started, TemporalError>)
    ensures
        start_failure_of(code) == StartFailure::AlreadyStarted ==> r == Ok::<Started, TemporalError>(
            Started::AlreadyStarted,
        ),
        start_failure_of(code) == StartFailure::Rejected ==> r == Err::<Started, TemporalError>(
            TemporalError::Rejected(message),
        ),
        start_failure_of(code) == StartFailure::Unknown ==> r == Err::<Started, TemporalError>(
            TemporalError::Unknown(description),
        ),
{
    match start_failure(code) {
        StartFailure::AlreadyStarted => Ok(Started::AlreadyStarted),
        StartFailure::Rejected => Err(TemporalError::Rejected(message)),
        StartFailure::Unknown => Err(TemporalError::Unknown(description)),
    }
}

/// Whether a call is tried once more with a fresh token: only after the first
/// attempt, and only when the peer refused the credentials.
pub fn retry_with_fresh_token(attempt: u32, code: i32) -> (r: bool)
    ensures
        r == (attempt == 0 && (code == GRPC_UNAUTHENTICATED || code == GRPC_PERMISSION_DENIED)),
{
    attempt == 0 && (code == GRPC_UNAUTHENTICATED || code == GRPC_PERMISSION_DENIED)
}

/// The observed state of an execution status value. A run that continued as
/// new should not be the latest run of an ID, so it is as unrecognized as an
/// unknown value.
pub open spec fn observed_state_of(status: i32) -> ObservedState {
    if status == EXECUTION_RUNNING || status == EXECUTION_PAUSED {
        ObservedState::Open
    } else if status == EXECUTION_COMPLETED {
        ObservedState::Closed(TaskStatus::Completed)
    } else if status == EXECUTION_FAILED {
        ObservedState::Closed(TaskStatus::Failed)
    } else if status == EXECUTION_CANCELED {
        ObservedState::Closed(TaskStatus::Canceled)
    } else if status == EXECUTION_TERMINATED {
        ObservedState::Closed(TaskStatus::Terminated)
    } else if status == EXECUTION_TIMED_OUT {
        ObservedState::Closed(TaskStatus::TimedOut)
    } else {
        ObservedState::Unrecognized(status)
    }
}

/// Maps an execution status value to the observed state.
pub fn observed_state(status: i32) -> (r: ObservedState)
    ensures
        r == observed_state_of(status),
{
    if status == EXECUTION_RUNNING || status == EXECUTION_PAUSED {
        ObservedState::Open
    } else if status == EXECUTION_COMPLETED {
        ObservedState::Closed(TaskStatus::Completed)
    } else if status == EXECUTION_FAILED {
        ObservedState::Closed(TaskStatus::Failed)
    } else if status == EXECUTION_CANCELED {
        ObservedState::Closed(TaskStatus::Canceled)
    } else if status == EXECUTION_TERMINATED {
        ObservedState::Closed(TaskStatus::Terminated)
    } else if status == EXECUTION_TIMED_OUT {
        ObservedState::Closed(TaskStatus::TimedOut)
    } else {
        ObservedState::Unrecognized(status)
    }
}

/// A namespace's retention as whole seconds and nanoseconds; a negative or
/// out-of-range part counts as zero.
pub fn retention_parts(seconds: i64, nanos: i32) -> (r: (u64, u32))
    ensures
        r.0 == (if seconds >= 0 {
            seconds as u64
        } else {
            0u64
        }),
        r.1 == (if nanos >= 0 {
            nanos as u32
        } else {
            0u32
        }),
{
    let s: u64 = if seconds >= 0 {
        seconds as u64
    } else {
        0
    };
    let n: u32 = if nanos >= 0 {
        nanos as u32
    } else {
        0
    };
    (s, n)
}

/// A describe answered NotFound is `None` (which does not mean "never
/// started": a closed run past retention is not found either); any other
/// failure leaves the outcome unknown.
pub fn describe_failure(code: i32, description: String) -> (r: Result<Option<Observed>, TemporalError>)
    ensures
        code == GRPC_NOT_FOUND ==> r matches Ok(None),
        code != GRPC_NOT_FOUND ==> r == Err::<Option<Observed>, TemporalError>(TemporalError::Unknown(description)),
{
    if code == GRPC_NOT_FOUND {
        Ok(None)
    } else {
        Err(TemporalError::Unknown(description))
    }
}

/// A status that is closed under the mapping is closed with a terminal task
/// status, and a running or paused one is never closed.
pub proof fn lemma_closed_states_are_terminal(status: i32)
    ensures
        observed_state_of(status) matches ObservedState::Closed(t) ==> t != TaskStatus::Running,
        (status == EXECUTION_RUNNING || status == EXECUTION_PAUSED) ==> observed_state_of(status)
            == ObservedState::Open,
{
}

} // verus!

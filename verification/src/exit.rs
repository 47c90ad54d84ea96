//! Interpretation of how the sampling process ended.
//!
//! A finished sampling run is one of three things: a success, a deliberate
//! cancellation by the user, or a failure. The distinction decides whether the
//! rest of the pipeline runs, so it is made in exactly one place, `classify`.

use vstd::prelude::*;

verus! {

/// Number of the interrupt signal, the one an interactive cancel request raises.
pub const SIGINT: i32 = 2;

/// Number of the terminate signal.
pub const SIGTERM: i32 = 15;

/// What the platform reports about a process that has exited.
///
/// The three fields are independent observations. `signal` is `None` both when
/// the process was not ended by a signal and when the platform cannot tell.
#[derive(Clone, Copy, Debug, PartialEq, Eq, Structural)]
pub struct ExitStatus {
    /// The platform counts the exit as successful.
    pub success: bool,
    /// The exit code, when the process returned one.
    pub code: Option<i32>,
    /// The signal that ended the process, when one did and it is known.
    pub signal: Option<i32>,
}

/// Why a sampling run counts as failed.
#[derive(Clone, Copy, Debug, PartialEq, Eq, Structural)]
pub enum FailureReason {
    /// Ended by a signal other than interrupt or terminate.
    Signal(i32),
    /// Returned this exit code, which the platform does not count as success.
    ExitCode(i32),
    /// Neither a signal nor an exit code is known.
    Unknown,
}

/// The verdict on a finished sampling run.
#[derive(Clone, Copy, Debug, PartialEq, Eq, Structural)]
pub enum ExitOutcome {
    /// The sampling process reported success.
    Success,
    /// The sampling process was ended by the interrupt or the terminate signal:
    /// an expected cancellation, not an error.
    UserInterrupted,
    /// Anything else.
    Failed(FailureReason),
}

/// The signals that stand for a cancellation by the user.
pub open spec fn is_cancel_signal(signal: i32) -> bool {
    signal == SIGINT || signal == SIGTERM
}

/// The reason recorded for a status that is neither a success nor a cancellation.
pub open spec fn failure_reason(status: ExitStatus) -> FailureReason {
    match status.signal {
        Some(signal) => FailureReason::Signal(signal),
        None => match status.code {
            Some(code) => FailureReason::ExitCode(code),
            None => FailureReason::Unknown,
        },
    }
}

/// The verdict on `status`: success wins over everything, then a cancel signal,
/// and whatever is left is a failure.
pub open spec fn classify_spec(status: ExitStatus) -> ExitOutcome {
    if status.success {
        ExitOutcome::Success
    } else if status.signal matches Some(signal) && is_cancel_signal(signal) {
        ExitOutcome::UserInterrupted
    } else {
        ExitOutcome::Failed(failure_reason(status))
    }
}

impl ExitStatus {
    /// The status of a process that returned `code`.
    pub fn exited(code: i32) -> (status: ExitStatus)
        ensures
            status == (ExitStatus { success: code == 0, code: Some(code), signal: None }),
    {
        ExitStatus { success: code == 0, code: Some(code), signal: None }
    }

    /// The status of a process that `signal` ended.
    pub fn signaled(signal: i32) -> (status: ExitStatus)
        ensures
            status == (ExitStatus { success: false, code: None, signal: Some(signal) }),
    {
        ExitStatus { success: false, code: None, signal: Some(signal) }
    }
}

impl ExitOutcome {
    /// Whether the pipeline goes on to collect the samples after this verdict.
    pub open spec fn proceeds(self) -> bool {
        !(self is Failed)
    }

    /// Whether the samples are to be collected after this verdict. They are
    /// after a success and after a cancellation.
    pub fn should_proceed(&self) -> (proceed: bool)
        ensures
            proceed == self.proceeds(),
            proceed == (*self == ExitOutcome::Success || *self == ExitOutcome::UserInterrupted),
    {
        match self {
            ExitOutcome::Failed(_) => false,
            _ => true,
        }
    }
}

/// Reads `signal_hook::SIGINT`, which re-exports the constant of that name from
/// `libc`. Trusted: every platform module of `libc` defines it as 2.
#[verifier::external_body]
fn interrupt_signal() -> (signal: i32)
    ensures
        signal == SIGINT,
{
    signal_hook::SIGINT
}

/// Reads `signal_hook::SIGTERM`, which re-exports the constant of that name from
/// `libc`. Trusted: every platform module of `libc` defines it as 15.
#[verifier::external_body]
fn terminate_signal() -> (signal: i32)
    ensures
        signal == SIGTERM,
{
    signal_hook::SIGTERM
}

/// Decides how a finished sampling run is to be treated.
pub fn classify(status: ExitStatus) -> (outcome: ExitOutcome)
    ensures
        outcome == classify_spec(status),
        status.success ==> outcome == ExitOutcome::Success,
        !status.success && (status.signal == Some(SIGINT) || status.signal == Some(SIGTERM))
            ==> outcome == ExitOutcome::UserInterrupted,
        !status.success && status.signal != Some(SIGINT) && status.signal != Some(SIGTERM)
            ==> outcome == ExitOutcome::Failed(failure_reason(status)),
{
    if status.success {
        return ExitOutcome::Success;
    }
    match status.signal {
        Some(signal) => {
            if signal == interrupt_signal() || signal == terminate_signal() {
                ExitOutcome::UserInterrupted
            } else {
                ExitOutcome::Failed(FailureReason::Signal(signal))
            }
        },
        None => match status.code {
            Some(code) => ExitOutcome::Failed(FailureReason::ExitCode(code)),
            None => ExitOutcome::Failed(FailureReason::Unknown),
        },
    }
}

/// Whether the sampling process ended in a way that must stop the pipeline:
/// without success, and not through the interrupt or the terminate signal.
pub fn terminated_by_error(status: ExitStatus) -> (failed: bool)
    ensures
        failed == (classify_spec(status) is Failed),
        failed == (!status.success && !(status.signal matches Some(signal) && is_cancel_signal(
            signal,
        ))),
{
    !classify(status).should_proceed()
}

} // verus!

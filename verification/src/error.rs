//! The conditions that end a run without a flame graph.
//!
//! None of them is retried. Each has a message for the operator, and all of
//! them end the program with the same exit code.

use crate::backend::SamplerBackend;
use crate::exit::FailureReason;
use vstd::prelude::*;

verus! {

/// Exit code of a run that produced its flame graph.
pub const EXIT_SUCCESS: i32 = 0;

/// Exit code of a run that was aborted, whatever the reason.
pub const EXIT_FAILURE: i32 = 1;

/// The two things that can go wrong with the interrupt handler.
#[derive(Clone, Copy, Debug, PartialEq, Eq, Structural)]
pub enum GuardFailure {
    /// The handler could not be installed.
    Acquire,
    /// The handler could not be removed again.
    Release,
}

/// The step at which fetching the raw samples failed.
#[derive(Clone, Copy, Debug, PartialEq, Eq, Structural)]
pub enum RetrievalFailure {
    /// The sampling tool could not be run to print its samples.
    Capture,
    /// The file of samples could not be opened.
    Open,
    /// The file of samples could not be read to its end.
    Read,
    /// The file of samples could not be deleted after it was read.
    Remove,
}

/// The two transforms between raw samples and flame graph.
#[derive(Clone, Copy, Debug, PartialEq, Eq, Structural)]
pub enum TransformStage {
    /// Raw samples to folded stack lines.
    Collapse,
    /// Folded stack lines to the flame graph.
    Render,
}

/// Why a run was aborted.
#[derive(Clone, Copy, Debug, PartialEq, Eq, Structural)]
pub enum FatalError {
    /// The interrupt handler could not be installed or removed.
    SignalGuardFailed(GuardFailure),
    /// The sampling tool could not be started.
    SpawnFailed,
    /// Waiting for the sampling tool failed.
    WaitFailed,
    /// The sampling tool ended in failure.
    SamplingFailed(FailureReason),
    /// The raw samples could not be fetched.
    OutputRetrievalFailed(RetrievalFailure),
    /// A transform rejected its input or could not run.
    TransformFailed(TransformStage),
    /// The flame graph file could not be created.
    ArtifactWriteFailed,
}

impl RetrievalFailure {
    /// The message for the operator.
    pub open spec fn message_spec(self) -> Seq<char> {
        match self {
            RetrievalFailure::Capture => "unable to call perf script"@,
            RetrievalFailure::Open => "failed to open dtrace output file cargo-flamegraph.stacks"@,
            RetrievalFailure::Read =>
                "failed to read dtrace expected output file cargo-flamegraph.stacks"@,
            RetrievalFailure::Remove => "unable to remove cargo-flamegraph.stacks temporary file"@,
        }
    }

    /// The message for the operator.
    pub fn message(&self) -> (text: &'static str)
        ensures
            text@ == self.message_spec(),
    {
        match self {
            RetrievalFailure::Capture => "unable to call perf script",
            RetrievalFailure::Open => "failed to open dtrace output file cargo-flamegraph.stacks",
            RetrievalFailure::Read =>
                "failed to read dtrace expected output file cargo-flamegraph.stacks",
            RetrievalFailure::Remove => "unable to remove cargo-flamegraph.stacks temporary file",
        }
    }
}

impl TransformStage {
    /// The message for the operator.
    pub open spec fn message_spec(self) -> Seq<char> {
        match self {
            TransformStage::Collapse => "unable to collapse generated profile data"@,
            TransformStage::Render =>
                "unable to generate a flamegraph from the collapsed stack data"@,
        }
    }

    /// The message for the operator.
    pub fn message(&self) -> (text: &'static str)
        ensures
            text@ == self.message_spec(),
    {
        match self {
            TransformStage::Collapse => "unable to collapse generated profile data",
            TransformStage::Render =>
                "unable to generate a flamegraph from the collapsed stack data",
        }
    }
}

impl GuardFailure {
    /// The message for the operator.
    pub open spec fn message_spec(self) -> Seq<char> {
        match self {
            GuardFailure::Acquire => "cannot register signal handler"@,
            GuardFailure::Release => "cannot unregister signal handler"@,
        }
    }

    /// The message for the operator.
    pub fn message(&self) -> (text: &'static str)
        ensures
            text@ == self.message_spec(),
    {
        match self {
            GuardFailure::Acquire => "cannot register signal handler",
            GuardFailure::Release => "cannot unregister signal handler",
        }
    }
}

impl FatalError {
    /// The message for the operator. Where starting the tool or waiting for it
    /// failed, the message names the tool.
    pub open spec fn message_spec(self, backend: SamplerBackend) -> Seq<char> {
        match self {
            FatalError::SignalGuardFailed(failure) => failure.message_spec(),
            FatalError::SpawnFailed => backend.spawn_error_spec(),
            FatalError::WaitFailed => backend.wait_error_spec(),
            FatalError::SamplingFailed(_) => "failed to sample program"@,
            FatalError::OutputRetrievalFailed(failure) => failure.message_spec(),
            FatalError::TransformFailed(stage) => stage.message_spec(),
            FatalError::ArtifactWriteFailed => "unable to create flamegraph.svg output file"@,
        }
    }

    /// The message for the operator.
    pub fn message(&self, backend: SamplerBackend) -> (text: &'static str)
        ensures
            text@ == self.message_spec(backend),
    {
        match self {
            FatalError::SignalGuardFailed(failure) => failure.message(),
            FatalError::SpawnFailed => backend.spawn_error(),
            FatalError::WaitFailed => backend.wait_error(),
            FatalError::SamplingFailed(_) => "failed to sample program",
            FatalError::OutputRetrievalFailed(failure) => failure.message(),
            FatalError::TransformFailed(stage) => stage.message(),
            FatalError::ArtifactWriteFailed => "unable to create flamegraph.svg output file",
        }
    }

    /// The exit code of a program that ends on this error.
    pub fn exit_code(&self) -> (code: i32)
        ensures
            code == EXIT_FAILURE,
    {
        EXIT_FAILURE
    }
}

} // verus!

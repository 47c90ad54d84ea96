//! Orchestration of CPU sampling around a workload.
//!
//! The crate decides; it does not perform. It builds the command lines of the
//! sampling tools, interprets how the sampling process ended, and sequences the
//! run from the first signal handler to the finished flame graph. Spawning
//! processes, touching files and handling signals are left to the caller, who
//! reports each result back as an event.

pub mod exit;
pub mod words;
pub mod command;
pub mod backend;
pub mod error;
pub mod orchestrator;
pub mod invariants;

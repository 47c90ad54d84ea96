//! The sampling tools and how each of them is driven.
//!
//! The two tools differ in more than their flags. `perf` keeps its samples to
//! itself until it is asked to print them; `dtrace` writes them to a file, which
//! has to be read and removed afterwards. `dtrace` also mangles the names of
//! functions badly enough that undoing it is left to the collapsing stage.

use crate::command::{CommandLine, SamplingCommand};
use crate::words::{split_whitespace, words_of};
use vstd::prelude::*;

verus! {

/// The file to which `dtrace` writes its samples, in the current directory.
pub const DTRACE_OUTPUT_FILE: &'static str = "cargo-flamegraph.stacks";

/// The probe that `dtrace` runs: user stacks of the target, 997 times a second.
pub const DTRACE_PROBE: &'static str = "profile-997 /pid == $target/ { @[ustack(100)] = count(); }";

/// A sampling tool.
#[derive(Clone, Copy, Debug, PartialEq, Eq, Structural)]
pub enum SamplerBackend {
    /// `perf`, the sampling tool of Linux.
    Perf,
    /// `dtrace`, the sampling tool elsewhere.
    Dtrace,
}

/// What an `OutputSource` stands for.
pub enum OutputSourceView {
    Stdout(CommandLine),
    File(Seq<char>),
}

/// Where the raw samples are once sampling has ended.
#[derive(Debug, PartialEq, Eq)]
pub enum OutputSource {
    /// Run this command and take what it prints on its standard output.
    Stdout(SamplingCommand),
    /// Read this file to its end, then delete it. The samples are gone from
    /// disk afterwards: they can be fetched once.
    File(String),
}

impl View for OutputSource {
    type V = OutputSourceView;

    open spec fn view(&self) -> OutputSourceView {
        match self {
            OutputSource::Stdout(command) => OutputSourceView::Stdout(command@),
            OutputSource::File(path) => OutputSourceView::File(path@),
        }
    }
}

/// How the raw samples are to be collapsed into folded stack lines.
#[derive(Clone, Copy, Debug, PartialEq, Eq, Structural)]
pub struct CollapseOptions {
    /// The tool whose output format the raw samples have.
    pub format: SamplerBackend,
    /// Whether the collapsing stage is to demangle the names of functions.
    pub demangle: bool,
}

impl SamplerBackend {
    /// The backend for the platform: `perf` on Linux, `dtrace` everywhere else.
    pub fn for_platform(linux: bool) -> (backend: SamplerBackend)
        ensures
            backend == if linux {
                SamplerBackend::Perf
            } else {
                SamplerBackend::Dtrace
            },
    {
        if linux {
            SamplerBackend::Perf
        } else {
            SamplerBackend::Dtrace
        }
    }

    /// The name of the tool's executable.
    pub open spec fn tool_spec(self) -> Seq<char> {
        match self {
            SamplerBackend::Perf => "perf"@,
            SamplerBackend::Dtrace => "dtrace"@,
        }
    }

    /// The arguments that come before the workload, whatever the workload is.
    pub open spec fn fixed_args(self) -> Seq<Seq<char>> {
        match self {
            SamplerBackend::Perf => seq![
                "record"@,
                "-F"@,
                "99"@,
                "--call-graph"@,
                "dwarf"@,
                "-g"@,
            ],
            SamplerBackend::Dtrace => seq![
                "-xmangled"@,
                "-x"@,
                "ustackframes=100"@,
                "-n"@,
                DTRACE_PROBE@,
                "-o"@,
                DTRACE_OUTPUT_FILE@,
                "-c"@,
            ],
        }
    }

    /// How the workload is handed to the tool: `perf` takes its words as
    /// arguments of their own, `dtrace` takes it whole as one argument.
    pub open spec fn workload_args(self, workload: Seq<char>) -> Seq<Seq<char>> {
        match self {
            SamplerBackend::Perf => words_of(workload),
            SamplerBackend::Dtrace => seq![workload],
        }
    }

    /// The command that samples `workload`.
    pub open spec fn initial_command_spec(self, workload: Seq<char>) -> CommandLine {
        CommandLine {
            program: self.tool_spec(),
            args: self.fixed_args() + self.workload_args(workload),
        }
    }

    /// Where the samples are after sampling.
    pub open spec fn output_source_spec(self) -> OutputSourceView {
        match self {
            SamplerBackend::Perf => OutputSourceView::Stdout(
                CommandLine { program: "perf"@, args: seq!["script"@] },
            ),
            SamplerBackend::Dtrace => OutputSourceView::File(DTRACE_OUTPUT_FILE@),
        }
    }

    /// The message for a tool that could not be started.
    pub open spec fn spawn_error_spec(self) -> Seq<char> {
        match self {
            SamplerBackend::Perf => "could not spawn perf"@,
            SamplerBackend::Dtrace => "could not spawn dtrace"@,
        }
    }

    /// The message for a tool that could not be waited for.
    pub open spec fn wait_error_spec(self) -> Seq<char> {
        match self {
            SamplerBackend::Perf => "unable to wait for perf child command to exit"@,
            SamplerBackend::Dtrace => "unable to wait for dtrace child command to exit"@,
        }
    }

    /// The options for collapsing this tool's samples.
    pub open spec fn collapse_options_spec(self) -> CollapseOptions {
        CollapseOptions { format: self, demangle: self == SamplerBackend::Dtrace }
    }

    /// The name of the tool's executable.
    pub fn tool(&self) -> (name: &'static str)
        ensures
            name@ == self.tool_spec(),
    {
        match self {
            SamplerBackend::Perf => "perf",
            SamplerBackend::Dtrace => "dtrace",
        }
    }

    /// The command that samples `workload`: the tool, its fixed flags, and the
    /// workload as the program to run under it.
    pub fn initial_command(&self, workload: &str) -> (command: SamplingCommand)
        ensures
            command@ == self.initial_command_spec(workload@),
    {
        let mut command = SamplingCommand::new(self.tool());
        match self {
            SamplerBackend::Perf => {
                command.arg("record");
                command.arg("-F");
                command.arg("99");
                command.arg("--call-graph");
                command.arg("dwarf");
                command.arg("-g");
                command.args(split_whitespace(workload));
            },
            SamplerBackend::Dtrace => {
                command.arg("-xmangled");
                command.arg("-x");
                command.arg("ustackframes=100");
                command.arg("-n");
                command.arg(DTRACE_PROBE);
                command.arg("-o");
                command.arg(DTRACE_OUTPUT_FILE);
                command.arg("-c");
                command.arg(workload);
            },
        }
        assert(command@.args =~= self.fixed_args() + self.workload_args(workload@));
        command
    }

    /// Where the samples are after sampling, and how to fetch them.
    pub fn output_source(&self) -> (source: OutputSource)
        ensures
            source@ == self.output_source_spec(),
    {
        match self {
            SamplerBackend::Perf => {
                let mut command = SamplingCommand::new("perf");
                command.arg("script");
                OutputSource::Stdout(command)
            },
            SamplerBackend::Dtrace => OutputSource::File(DTRACE_OUTPUT_FILE.to_owned()),
        }
    }

    /// The options for collapsing this tool's samples. Only `dtrace` leaves
    /// the demangling to the collapsing stage.
    pub fn collapse_options(&self) -> (options: CollapseOptions)
        ensures
            options == self.collapse_options_spec(),
            options.demangle <==> *self == SamplerBackend::Dtrace,
    {
        match self {
            SamplerBackend::Perf => CollapseOptions {
                format: SamplerBackend::Perf,
                demangle: false,
            },
            SamplerBackend::Dtrace => CollapseOptions {
                format: SamplerBackend::Dtrace,
                demangle: true,
            },
        }
    }

    /// The message for a tool that could not be started.
    pub fn spawn_error(&self) -> (text: &'static str)
        ensures
            text@ == self.spawn_error_spec(),
    {
        match self {
            SamplerBackend::Perf => "could not spawn perf",
            SamplerBackend::Dtrace => "could not spawn dtrace",
        }
    }

    /// The message for a tool that could not be waited for.
    pub fn wait_error(&self) -> (text: &'static str)
        ensures
            text@ == self.wait_error_spec(),
    {
        match self {
            SamplerBackend::Perf => "unable to wait for perf child command to exit",
            SamplerBackend::Dtrace => "unable to wait for dtrace child command to exit",
        }
    }
}

} // verus!

//! Process invocations as plain data.
//!
//! The library never starts a process. It says which program is to be run with
//! which arguments, and the caller runs it.

use vstd::prelude::*;

verus! {

/// What a `SamplingCommand` stands for: the program and its arguments, as text.
pub struct CommandLine {
    pub program: Seq<char>,
    pub args: Seq<Seq<char>>,
}

/// A process invocation: the executable and its arguments, in order.
#[derive(Debug, PartialEq, Eq)]
pub struct SamplingCommand {
    pub program: String,
    pub args: Vec<String>,
}

impl View for SamplingCommand {
    type V = CommandLine;

    open spec fn view(&self) -> CommandLine {
        CommandLine { program: self.program@, args: self.args.deep_view() }
    }
}

impl SamplingCommand {
    /// The invocation of `program` without arguments.
    pub fn new(program: &str) -> (command: SamplingCommand)
        ensures
            command@ == (CommandLine { program: program@, args: Seq::empty() }),
    {
        let command = SamplingCommand { program: program.to_owned(), args: Vec::new() };
        assert(command.args.deep_view() =~= Seq::<Seq<char>>::empty());
        command
    }

    /// Adds `arg` as the last argument.
    pub fn arg(&mut self, arg: &str)
        ensures
            final(self)@ == (CommandLine {
                program: old(self)@.program,
                args: old(self)@.args.push(arg@),
            }),
    {
        let ghost before = self.args.deep_view();
        self.args.push(arg.to_owned());
        assert(self.args.deep_view() =~= before.push(arg@));
    }

    /// Adds each of `args`, in their order, after the arguments already there.
    pub fn args(&mut self, mut args: Vec<String>)
        ensures
            final(self)@ == (CommandLine {
                program: old(self)@.program,
                args: old(self)@.args + args.deep_view(),
            }),
    {
        let ghost before = self.args.deep_view();
        let ghost added = args.deep_view();
        self.args.append(&mut args);
        assert(self.args.deep_view() =~= before + added);
    }
}

} // verus!

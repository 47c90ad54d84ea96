//! The run from start to flame graph, as a machine that is told what happened
//! and answers what to do next.
//!
//! The machine performs nothing itself. Each answer is an `Action` for the
//! caller to carry out; the caller reports how it went as the next `Event`. A
//! run is therefore a loop around `Orchestrator::step`, and everything that is
//! decided during a run is decided here: that the interrupt handler is in place
//! before the sampling tool starts and gone before its exit is judged, that a
//! cancelled run is processed like a successful one, that a failed one produces
//! nothing, and that no stage is tried twice.

use crate::backend::{CollapseOptions, OutputSource, OutputSourceView, SamplerBackend};
use crate::command::{CommandLine, SamplingCommand};
use crate::error::{
    FatalError,
    GuardFailure,
    RetrievalFailure,
    TransformStage,
    EXIT_FAILURE,
    EXIT_SUCCESS,
};
use crate::exit::{classify, classify_spec, ExitOutcome, ExitStatus};
use vstd::prelude::*;

verus! {

/// The stages of a run.
#[derive(Clone, Copy, Debug, PartialEq, Eq, Structural)]
pub enum Stage {
    /// Nothing has happened yet.
    Idle,
    /// The sampling tool is being started or is running.
    Sampling,
    /// The sampling tool has exited and its exit is about to be judged.
    Classifying,
    /// The raw samples are being fetched.
    Collecting,
    /// The raw samples are being folded into stack lines.
    Collapsing,
    /// The flame graph is being drawn and written.
    Rendering,
    /// The flame graph is written.
    Done,
    /// The run has ended without a flame graph.
    Aborted,
}

/// What is to happen once the interrupt handler has been removed.
#[derive(Clone, Copy, Debug, PartialEq, Eq, Structural)]
pub enum Pending {
    /// The sampling tool exited with this status, which is to be judged.
    Classify(ExitStatus),
    /// The sampling tool could not be started, which is to be reported.
    SpawnFailed,
    /// Waiting for the sampling tool failed, which is to be reported.
    WaitFailed,
}

/// Where a run stands: which report the machine is waiting for.
#[derive(Clone, Copy, Debug, PartialEq, Eq, Structural)]
pub enum Step {
    /// Waiting to be started.
    Idle,
    /// Waiting for the interrupt handler to be installed.
    AcquiringGuard,
    /// Waiting for the sampling tool to be started.
    Spawning,
    /// Waiting for the sampling tool to exit.
    Waiting,
    /// Waiting for the interrupt handler to be removed.
    Releasing(Pending),
    /// Waiting for the raw samples.
    Collecting,
    /// Waiting for the folded stack lines.
    Collapsing,
    /// Waiting for the flame graph to be written.
    Rendering,
    /// The flame graph is written; nothing is waited for.
    Done,
    /// The run was aborted with this error; nothing is waited for.
    Aborted(FatalError),
}

/// What an `Event` stands for.
pub enum EventView {
    Start,
    GuardAcquired,
    GuardFailed,
    Spawned,
    SpawnFailed,
    Exited(ExitStatus),
    WaitFailed,
    GuardReleased,
    GuardReleaseFailed,
    OutputRetrieved(Seq<u8>),
    RetrievalFailed(RetrievalFailure),
    Collapsed(Seq<u8>),
    CollapseFailed,
    ArtifactWritten,
    ArtifactCreateFailed,
    RenderFailed,
}

/// A report from the caller: how the action it was given went.
#[derive(Debug, PartialEq, Eq)]
pub enum Event {
    /// The run is to begin.
    Start,
    /// The interrupt handler is installed.
    GuardAcquired,
    /// The interrupt handler could not be installed.
    GuardFailed,
    /// The sampling tool is running.
    Spawned,
    /// The sampling tool could not be started.
    SpawnFailed,
    /// The sampling tool has exited with this status.
    Exited(ExitStatus),
    /// Waiting for the sampling tool failed.
    WaitFailed,
    /// The interrupt handler is removed.
    GuardReleased,
    /// The interrupt handler could not be removed.
    GuardReleaseFailed,
    /// These are the raw samples.
    OutputRetrieved(Vec<u8>),
    /// The raw samples could not be fetched.
    RetrievalFailed(RetrievalFailure),
    /// These are the folded stack lines.
    Collapsed(Vec<u8>),
    /// The raw samples could not be folded.
    CollapseFailed,
    /// The flame graph is drawn and written.
    ArtifactWritten,
    /// The file for the flame graph could not be created.
    ArtifactCreateFailed,
    /// The flame graph could not be drawn.
    RenderFailed,
}

impl View for Event {
    type V = EventView;

    open spec fn view(&self) -> EventView {
        match self {
            Event::Start => EventView::Start,
            Event::GuardAcquired => EventView::GuardAcquired,
            Event::GuardFailed => EventView::GuardFailed,
            Event::Spawned => EventView::Spawned,
            Event::SpawnFailed => EventView::SpawnFailed,
            Event::Exited(status) => EventView::Exited(*status),
            Event::WaitFailed => EventView::WaitFailed,
            Event::GuardReleased => EventView::GuardReleased,
            Event::GuardReleaseFailed => EventView::GuardReleaseFailed,
            Event::OutputRetrieved(raw) => EventView::OutputRetrieved(raw@),
            Event::RetrievalFailed(failure) => EventView::RetrievalFailed(*failure),
            Event::Collapsed(folded) => EventView::Collapsed(folded@),
            Event::CollapseFailed => EventView::CollapseFailed,
            Event::ArtifactWritten => EventView::ArtifactWritten,
            Event::ArtifactCreateFailed => EventView::ArtifactCreateFailed,
            Event::RenderFailed => EventView::RenderFailed,
        }
    }
}

/// What an `Action` stands for.
pub enum ActionView {
    AcquireGuard,
    Spawn(CommandLine),
    Wait,
    ReleaseGuard,
    Retrieve(OutputSourceView),
    Collapse { raw: Seq<u8>, options: CollapseOptions },
    Render { folded: Seq<u8> },
    Finish,
    Abort(FatalError),
}

/// What the caller is to do next.
#[derive(Debug, PartialEq, Eq)]
pub enum Action {
    /// Give the interrupt signal a handler that does nothing, for this process.
    AcquireGuard,
    /// Start this command.
    Spawn(SamplingCommand),
    /// Wait until the started command has exited.
    Wait,
    /// Remove the interrupt handler again.
    ReleaseGuard,
    /// Fetch the raw samples from here.
    Retrieve(OutputSource),
    /// Fold these raw samples into stack lines.
    Collapse { raw: Vec<u8>, options: CollapseOptions },
    /// Draw the flame graph of these folded stack lines, with default settings,
    /// into the file that the run was asked to write.
    Render { folded: Vec<u8> },
    /// The run is complete.
    Finish,
    /// Report this error and end the program.
    Abort(FatalError),
}

impl View for Action {
    type V = ActionView;

    open spec fn view(&self) -> ActionView {
        match self {
            Action::AcquireGuard => ActionView::AcquireGuard,
            Action::Spawn(command) => ActionView::Spawn(command@),
            Action::Wait => ActionView::Wait,
            Action::ReleaseGuard => ActionView::ReleaseGuard,
            Action::Retrieve(source) => ActionView::Retrieve(source@),
            Action::Collapse { raw, options } => ActionView::Collapse {
                raw: raw@,
                options: *options,
            },
            Action::Render { folded } => ActionView::Render { folded: folded@ },
            Action::Finish => ActionView::Finish,
            Action::Abort(error) => ActionView::Abort(*error),
        }
    }
}

impl Step {
    /// The stage that this step belongs to.
    pub open spec fn stage_spec(self) -> Stage {
        match self {
            Step::Idle => Stage::Idle,
            Step::AcquiringGuard => Stage::Sampling,
            Step::Spawning => Stage::Sampling,
            Step::Waiting => Stage::Sampling,
            Step::Releasing(Pending::SpawnFailed) => Stage::Sampling,
            Step::Releasing(Pending::WaitFailed) => Stage::Sampling,
            Step::Releasing(Pending::Classify(_)) => Stage::Classifying,
            Step::Collecting => Stage::Collecting,
            Step::Collapsing => Stage::Collapsing,
            Step::Rendering => Stage::Rendering,
            Step::Done => Stage::Done,
            Step::Aborted(_) => Stage::Aborted,
        }
    }

    /// Whether the run has ended.
    pub open spec fn is_terminal(self) -> bool {
        self is Done || self is Aborted
    }

    /// Whether the interrupt handler is in place, as far as the machine was
    /// told: from its installation until the report on its removal.
    pub open spec fn guard_held(self) -> bool {
        self is Spawning || self is Waiting || self is Releasing
    }

    /// How far the run has come. No step is entered from one of the same or
    /// of a higher rank.
    pub open spec fn rank(self) -> nat {
        match self {
            Step::Idle => 0,
            Step::AcquiringGuard => 1,
            Step::Spawning => 2,
            Step::Waiting => 3,
            Step::Releasing(_) => 4,
            Step::Collecting => 5,
            Step::Collapsing => 6,
            Step::Rendering => 7,
            Step::Done => 8,
            Step::Aborted(_) => 8,
        }
    }

    /// The stage that this step belongs to.
    pub fn stage(&self) -> (stage: Stage)
        ensures
            stage == self.stage_spec(),
    {
        match self {
            Step::Idle => Stage::Idle,
            Step::AcquiringGuard => Stage::Sampling,
            Step::Spawning => Stage::Sampling,
            Step::Waiting => Stage::Sampling,
            Step::Releasing(Pending::SpawnFailed) => Stage::Sampling,
            Step::Releasing(Pending::WaitFailed) => Stage::Sampling,
            Step::Releasing(Pending::Classify(_)) => Stage::Classifying,
            Step::Collecting => Stage::Collecting,
            Step::Collapsing => Stage::Collapsing,
            Step::Rendering => Stage::Rendering,
            Step::Done => Stage::Done,
            Step::Aborted(_) => Stage::Aborted,
        }
    }
}

impl ActionView {
    /// The step that is entered by issuing this action.
    pub open spec fn enters(self, step: Step) -> bool {
        match self {
            ActionView::AcquireGuard => step == Step::AcquiringGuard,
            ActionView::Spawn(_) => step == Step::Spawning,
            ActionView::Wait => step == Step::Waiting,
            ActionView::ReleaseGuard => step is Releasing,
            ActionView::Retrieve(_) => step == Step::Collecting,
            ActionView::Collapse { .. } => step == Step::Collapsing,
            ActionView::Render { .. } => step == Step::Rendering,
            ActionView::Finish => step == Step::Done,
            ActionView::Abort(error) => step == Step::Aborted(error),
        }
    }

    /// The rank of the step that is entered by issuing this action.
    pub open spec fn rank(self) -> nat {
        match self {
            ActionView::AcquireGuard => 1,
            ActionView::Spawn(_) => 2,
            ActionView::Wait => 3,
            ActionView::ReleaseGuard => 4,
            ActionView::Retrieve(_) => 5,
            ActionView::Collapse { .. } => 6,
            ActionView::Render { .. } => 7,
            ActionView::Finish => 8,
            ActionView::Abort(_) => 8,
        }
    }

    /// The exit code with which the program ends on this action, if it ends.
    pub open spec fn exit_code_spec(self) -> Option<i32> {
        match self {
            ActionView::Finish => Some(EXIT_SUCCESS),
            ActionView::Abort(_) => Some(EXIT_FAILURE),
            _ => None,
        }
    }
}

impl Action {
    /// The exit code with which the program ends on this action: that of
    /// success after `Finish`, that of failure after `Abort`, and none for
    /// an action after which the run goes on.
    pub fn exit_code(&self) -> (code: Option<i32>)
        ensures
            code == self@.exit_code_spec(),
    {
        match self {
            Action::Finish => Some(EXIT_SUCCESS),
            Action::Abort(_) => Some(EXIT_FAILURE),
            _ => None,
        }
    }
}

/// What an `Orchestrator` stands for.
pub struct Machine {
    /// The sampling tool of this run.
    pub backend: SamplerBackend,
    /// The command to be profiled.
    pub workload: Seq<char>,
    /// Where the run stands.
    pub step: Step,
}

impl Machine {
    /// A run that has not begun.
    pub open spec fn initial(backend: SamplerBackend, workload: Seq<char>) -> Machine {
        Machine { backend, workload, step: Step::Idle }
    }

    /// The same run at another step.
    pub open spec fn at(self, step: Step) -> Machine {
        Machine { step, ..self }
    }

    /// The end of the run on `error`: the machine is aborted, and the action
    /// reports the error.
    pub open spec fn aborted(self, error: FatalError) -> (Machine, ActionView) {
        (self.at(Step::Aborted(error)), ActionView::Abort(error))
    }

    /// What follows the judgement of `status`: the samples are fetched from
    /// where the backend leaves them, unless sampling failed.
    pub open spec fn judged(self, status: ExitStatus) -> (Machine, ActionView) {
        match classify_spec(status) {
            ExitOutcome::Failed(reason) => self.aborted(FatalError::SamplingFailed(reason)),
            _ => (
                self.at(Step::Collecting),
                ActionView::Retrieve(self.backend.output_source_spec()),
            ),
        }
    }

    /// What `event` does to the run: the machine after it and the action that
    /// it calls for, or `None` if the machine is not waiting for `event`.
    pub open spec fn next(self, event: EventView) -> Option<(Machine, ActionView)> {
        match (self.step, event) {
            (Step::Idle, EventView::Start) => Some(
                (self.at(Step::AcquiringGuard), ActionView::AcquireGuard),
            ),
            (Step::AcquiringGuard, EventView::GuardAcquired) => Some(
                (
                    self.at(Step::Spawning),
                    ActionView::Spawn(self.backend.initial_command_spec(self.workload)),
                ),
            ),
            (Step::AcquiringGuard, EventView::GuardFailed) => Some(
                self.aborted(FatalError::SignalGuardFailed(GuardFailure::Acquire)),
            ),
            (Step::Spawning, EventView::Spawned) => Some(
                (self.at(Step::Waiting), ActionView::Wait),
            ),
            (Step::Spawning, EventView::SpawnFailed) => Some(
                (self.at(Step::Releasing(Pending::SpawnFailed)), ActionView::ReleaseGuard),
            ),
            (Step::Waiting, EventView::Exited(status)) => Some(
                (self.at(Step::Releasing(Pending::Classify(status))), ActionView::ReleaseGuard),
            ),
            (Step::Waiting, EventView::WaitFailed) => Some(
                (self.at(Step::Releasing(Pending::WaitFailed)), ActionView::ReleaseGuard),
            ),
            (Step::Releasing(Pending::Classify(status)), EventView::GuardReleased) => Some(
                self.judged(status),
            ),
            (Step::Releasing(Pending::Classify(_)), EventView::GuardReleaseFailed) => Some(
                self.aborted(FatalError::SignalGuardFailed(GuardFailure::Release)),
            ),
            (Step::Releasing(Pending::SpawnFailed), EventView::GuardReleased) => Some(
                self.aborted(FatalError::SpawnFailed),
            ),
            (Step::Releasing(Pending::SpawnFailed), EventView::GuardReleaseFailed) => Some(
                self.aborted(FatalError::SpawnFailed),
            ),
            (Step::Releasing(Pending::WaitFailed), EventView::GuardReleased) => Some(
                self.aborted(FatalError::WaitFailed),
            ),
            (Step::Releasing(Pending::WaitFailed), EventView::GuardReleaseFailed) => Some(
                self.aborted(FatalError::WaitFailed),
            ),
            (Step::Collecting, EventView::OutputRetrieved(raw)) => Some(
                (
                    self.at(Step::Collapsing),
                    ActionView::Collapse { raw, options: self.backend.collapse_options_spec() },
                ),
            ),
            (Step::Collecting, EventView::RetrievalFailed(failure)) => Some(
                self.aborted(FatalError::OutputRetrievalFailed(failure)),
            ),
            (Step::Collapsing, EventView::Collapsed(folded)) => Some(
                (self.at(Step::Rendering), ActionView::Render { folded }),
            ),
            (Step::Collapsing, EventView::CollapseFailed) => Some(
                self.aborted(FatalError::TransformFailed(TransformStage::Collapse)),
            ),
            (Step::Rendering, EventView::ArtifactWritten) => Some(
                (self.at(Step::Done), ActionView::Finish),
            ),
            (Step::Rendering, EventView::ArtifactCreateFailed) => Some(
                self.aborted(FatalError::ArtifactWriteFailed),
            ),
            (Step::Rendering, EventView::RenderFailed) => Some(
                self.aborted(FatalError::TransformFailed(TransformStage::Render)),
            ),
            _ => None,
        }
    }

    /// The run that `events` drive from here: the machine after the last of
    /// them, and the actions that were issued on the way, in their order. A
    /// report that the machine is not waiting for is passed over.
    pub open spec fn run(self, events: Seq<EventView>) -> (Machine, Seq<ActionView>)
        decreases events.len(),
    {
        if events.len() == 0 {
            (self, Seq::empty())
        } else {
            let (before, issued) = self.run(events.drop_last());
            match before.next(events.last()) {
                Some((after, action)) => (after, issued.push(action)),
                None => (before, issued),
            }
        }
    }
}

/// What each of `events` stands for, in their order.
pub open spec fn event_views(events: Seq<Event>) -> Seq<EventView> {
    Seq::new(events.len(), |i: int| events[i]@)
}

/// What each of `actions` stands for, in their order.
pub open spec fn action_views(actions: Seq<Action>) -> Seq<ActionView> {
    Seq::new(actions.len(), |i: int| actions[i]@)
}

/// One run of the pipeline.
pub struct Orchestrator {
    backend: SamplerBackend,
    workload: String,
    step: Step,
}

impl View for Orchestrator {
    type V = Machine;

    closed spec fn view(&self) -> Machine {
        Machine { backend: self.backend, workload: self.workload@, step: self.step }
    }
}

impl Orchestrator {
    /// A run of `workload` under `backend` that has not begun.
    pub fn new(backend: SamplerBackend, workload: String) -> (run: Orchestrator)
        ensures
            run@ == Machine::initial(backend, workload@),
    {
        Orchestrator { backend, workload, step: Step::Idle }
    }

    /// The sampling tool of this run.
    pub fn backend(&self) -> (backend: SamplerBackend)
        ensures
            backend == self@.backend,
    {
        self.backend
    }

    /// The command to be profiled.
    pub fn workload(&self) -> (workload: &str)
        ensures
            workload@ == self@.workload,
    {
        self.workload.as_str()
    }

    /// Where the run stands.
    pub fn current_step(&self) -> (step: Step)
        ensures
            step == self@.step,
    {
        self.step
    }

    /// The stage of the run.
    pub fn stage(&self) -> (stage: Stage)
        ensures
            stage == self@.step.stage_spec(),
    {
        self.step.stage()
    }

    /// Whether the run has ended, with or without a flame graph.
    pub fn is_finished(&self) -> (finished: bool)
        ensures
            finished == self@.step.is_terminal(),
    {
        match self.step {
            Step::Done => true,
            Step::Aborted(_) => true,
            _ => false,
        }
    }

    /// Takes the report `event` and answers with the next action.
    ///
    /// Answers `None`, and changes nothing, when `event` is not the report that
    /// the run is waiting for; a run that has ended waits for none.
    pub fn step(&mut self, event: Event) -> (action: Option<Action>)
        ensures
            match old(self)@.next(event@) {
                Some((machine, expected)) => {
                    &&& final(self)@ == machine
                    &&& action matches Some(issued)
                    &&& issued@ == expected
                },
                None => final(self)@ == old(self)@ && action is None,
            },
    {
        let (entered, action) = match (self.step, event) {
            (Step::Idle, Event::Start) => (Step::AcquiringGuard, Action::AcquireGuard),
            (Step::AcquiringGuard, Event::GuardAcquired) => (
                Step::Spawning,
                Action::Spawn(self.backend.initial_command(self.workload.as_str())),
            ),
            (Step::AcquiringGuard, Event::GuardFailed) => Self::abort(
                FatalError::SignalGuardFailed(GuardFailure::Acquire),
            ),
            (Step::Spawning, Event::Spawned) => (Step::Waiting, Action::Wait),
            (Step::Spawning, Event::SpawnFailed) => (
                Step::Releasing(Pending::SpawnFailed),
                Action::ReleaseGuard,
            ),
            (Step::Waiting, Event::Exited(status)) => (
                Step::Releasing(Pending::Classify(status)),
                Action::ReleaseGuard,
            ),
            (Step::Waiting, Event::WaitFailed) => (
                Step::Releasing(Pending::WaitFailed),
                Action::ReleaseGuard,
            ),
            (Step::Releasing(Pending::Classify(status)), Event::GuardReleased) => {
                match classify(status) {
                    ExitOutcome::Failed(reason) => Self::abort(FatalError::SamplingFailed(reason)),
                    _ => (Step::Collecting, Action::Retrieve(self.backend.output_source())),
                }
            },
            (Step::Releasing(Pending::Classify(_)), Event::GuardReleaseFailed) => Self::abort(
                FatalError::SignalGuardFailed(GuardFailure::Release),
            ),
            (Step::Releasing(Pending::SpawnFailed), Event::GuardReleased) => Self::abort(
                FatalError::SpawnFailed,
            ),
            (Step::Releasing(Pending::SpawnFailed), Event::GuardReleaseFailed) => Self::abort(
                FatalError::SpawnFailed,
            ),
            (Step::Releasing(Pending::WaitFailed), Event::GuardReleased) => Self::abort(
                FatalError::WaitFailed,
            ),
            (Step::Releasing(Pending::WaitFailed), Event::GuardReleaseFailed) => Self::abort(
                FatalError::WaitFailed,
            ),
            (Step::Collecting, Event::OutputRetrieved(raw)) => (
                Step::Collapsing,
                Action::Collapse { raw, options: self.backend.collapse_options() },
            ),
            (Step::Collecting, Event::RetrievalFailed(failure)) => Self::abort(
                FatalError::OutputRetrievalFailed(failure),
            ),
            (Step::Collapsing, Event::Collapsed(folded)) => (
                Step::Rendering,
                Action::Render { folded },
            ),
            (Step::Collapsing, Event::CollapseFailed) => Self::abort(
                FatalError::TransformFailed(TransformStage::Collapse),
            ),
            (Step::Rendering, Event::ArtifactWritten) => (Step::Done, Action::Finish),
            (Step::Rendering, Event::ArtifactCreateFailed) => Self::abort(
                FatalError::ArtifactWriteFailed,
            ),
            (Step::Rendering, Event::RenderFailed) => Self::abort(
                FatalError::TransformFailed(TransformStage::Render),
            ),
            _ => {
                return None;
            },
        };
        self.step = entered;
        Some(action)
    }

    /// Takes the reports `events` one after the other and answers with the
    /// actions that they called for, in their order. A report that the run is
    /// not waiting for is passed over.
    pub fn replay(&mut self, events: Vec<Event>) -> (issued: Vec<Action>)
        ensures
            (final(self)@, action_views(issued@)) == old(self)@.run(event_views(events@)),
    {
        let ghost start = self@;
        let ghost reports = event_views(events@);
        let mut issued: Vec<Action> = Vec::new();
        for event in it: events
            invariant
                reports == event_views(events@),
                (self@, action_views(issued@)) == start.run(reports.take(it.index() as int)),
        {
            let ghost before = action_views(issued@);
            assert(reports.take(it.index() + 1).drop_last() =~= reports.take(it.index() as int));
            if let Some(action) = self.step(event) {
                issued.push(action);
                assert(action_views(issued@) =~= before.push(action@));
            }
        }
        assert(reports.take(events@.len() as int) =~= reports);
        issued
    }

    /// The end of a run on `error`: the step and the action that reports it.
    fn abort(error: FatalError) -> (end: (Step, Action))
        ensures
            end.0 == Step::Aborted(error),
            end.1@ == ActionView::Abort(error),
    {
        (Step::Aborted(error), Action::Abort(error))
    }
}

} // verus!

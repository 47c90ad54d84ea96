//! What holds of every run, whatever the caller reports.
//!
//! The first group speaks of a single report, the second of whole runs: of the
//! machine and the actions that a sequence of reports leaves behind.

use crate::backend::SamplerBackend;
use crate::error::{FatalError, RetrievalFailure, EXIT_FAILURE};
use crate::exit::{classify_spec, is_cancel_signal, ExitOutcome, ExitStatus};
use crate::orchestrator::{ActionView, EventView, Machine, Pending, Step};
use vstd::prelude::*;

verus! {

/// A report that the machine was waiting for moves the run forward, to the
/// step that the issued action names, and changes neither the backend nor the
/// workload.
pub proof fn lemma_step_advances(machine: Machine, event: EventView)
    requires
        machine.next(event) is Some,
    ensures
        ({
            let (after, action) = machine.next(event)->0;
            &&& after.backend == machine.backend
            &&& after.workload == machine.workload
            &&& machine.step.rank() < after.step.rank()
            &&& action.enters(after.step)
            &&& action.rank() == after.step.rank()
        }),
{
}

/// A run that has ended waits for no report: nothing more is issued.
pub proof fn lemma_ended_run_waits_for_nothing(machine: Machine, event: EventView)
    requires
        machine.step.is_terminal(),
    ensures
        machine.next(event) is None,
{
}

/// The sampling tool is started on the report that the interrupt handler is
/// installed, and on no other; it is started and awaited only while the
/// handler is in place.
pub proof fn lemma_sampling_is_guarded(machine: Machine, event: EventView)
    requires
        machine.next(event) is Some,
    ensures
        ({
            let (after, action) = machine.next(event)->0;
            &&& action is Spawn <==> event == EventView::GuardAcquired
            &&& action is Spawn || action is Wait ==> after.step.guard_held()
            &&& after.step.guard_held() && !machine.step.guard_held() ==> action is Spawn
            &&& machine.step.guard_held() && !after.step.guard_held() ==> machine.step is Releasing
        }),
{
}

/// The exit of the sampling tool is judged when the interrupt handler is
/// reported removed, not before: the samples are asked for, or the failure of
/// sampling is reported, only then, and according to the judgement.
pub proof fn lemma_judged_after_release(machine: Machine, event: EventView)
    requires
        machine.next(event) is Some,
    ensures
        ({
            let (after, action) = machine.next(event)->0;
            &&& action is Retrieve ==> {
                &&& event == EventView::GuardReleased
                &&& machine.step matches Step::Releasing(Pending::Classify(status))
                &&& classify_spec(status).proceeds()
            }
            &&& action matches ActionView::Abort(FatalError::SamplingFailed(reason)) ==> {
                &&& event == EventView::GuardReleased
                &&& machine.step matches Step::Releasing(Pending::Classify(status))
                &&& classify_spec(status) == ExitOutcome::Failed(reason)
            }
        }),
{
}

/// After a successful exit of the sampling tool the samples are fetched.
pub proof fn lemma_success_proceeds(machine: Machine, status: ExitStatus)
    requires
        machine.step == Step::Releasing(Pending::Classify(status)),
        status.success,
    ensures
        machine.next(EventView::GuardReleased) == Some(
            (
                machine.at(Step::Collecting),
                ActionView::Retrieve(machine.backend.output_source_spec()),
            ),
        ),
{
}

/// After an exit by the interrupt or the terminate signal the samples are
/// fetched as after a success: a cancelled run is processed, not aborted.
pub proof fn lemma_cancellation_proceeds(machine: Machine, status: ExitStatus, signal: i32)
    requires
        machine.step == Step::Releasing(Pending::Classify(status)),
        status.signal == Some(signal),
        is_cancel_signal(signal),
    ensures
        machine.next(EventView::GuardReleased) == Some(
            (
                machine.at(Step::Collecting),
                ActionView::Retrieve(machine.backend.output_source_spec()),
            ),
        ),
{
}

/// After any other exit the run is aborted: the failure is reported, the
/// program is to end with the exit code of failure, and the machine accepts
/// nothing further, so that neither samples are fetched nor a flame graph drawn.
pub proof fn lemma_failure_aborts(machine: Machine, status: ExitStatus)
    requires
        machine.step == Step::Releasing(Pending::Classify(status)),
        !status.success,
        !(status.signal matches Some(signal) && is_cancel_signal(signal)),
    ensures
        machine.next(EventView::GuardReleased) is Some,
        ({
            let (after, action) = machine.next(EventView::GuardReleased)->0;
            &&& action matches ActionView::Abort(FatalError::SamplingFailed(_))
            &&& action.exit_code_spec() == Some(EXIT_FAILURE)
            &&& after.step == Step::Aborted(action->Abort_0)
            &&& forall|event: EventView| after.next(event) is None
        }),
{
}

/// Samples that cannot be fetched end the run with the exit code of failure.
pub proof fn lemma_missing_samples_abort(machine: Machine, failure: RetrievalFailure)
    requires
        machine.step == Step::Collecting,
    ensures
        machine.next(EventView::RetrievalFailed(failure)) == Some(
            machine.aborted(FatalError::OutputRetrievalFailed(failure)),
        ),
        ActionView::Abort(FatalError::OutputRetrievalFailed(failure)).exit_code_spec() == Some(
            EXIT_FAILURE,
        ),
{
}

/// What one stage reports is what the next stage is given: the samples go to
/// the collapsing stage as they were fetched, with the options of the backend,
/// and the folded lines go to the rendering stage as they were produced.
pub proof fn lemma_data_is_handed_on(machine: Machine, data: Seq<u8>)
    ensures
        machine.step == Step::Collecting ==> machine.next(EventView::OutputRetrieved(data))
            == Some(
            (
                machine.at(Step::Collapsing),
                ActionView::Collapse {
                    raw: data,
                    options: machine.backend.collapse_options_spec(),
                },
            ),
        ),
        machine.step == Step::Collapsing ==> machine.next(EventView::Collapsed(data)) == Some(
            (machine.at(Step::Rendering), ActionView::Render { folded: data }),
        ),
{
}

/// In every run the actions come in the order of the pipeline, each at most
/// once: no stage is entered twice and none is taken up again after a later
/// one. The last action issued is the one of the step at which the run stands.
pub proof fn lemma_run_is_ordered(machine: Machine, events: Seq<EventView>)
    ensures
        ({
            let (after, issued) = machine.run(events);
            &&& after.backend == machine.backend
            &&& after.workload == machine.workload
            &&& machine.step.rank() <= after.step.rank()
            &&& issued.len() == 0 ==> after == machine
            &&& issued.len() > 0 ==> issued.last().enters(after.step)
            &&& forall|i: int|
                0 <= i < issued.len() ==> machine.step.rank() < (#[trigger] issued[i]).rank()
                    <= after.step.rank()
            &&& forall|i: int, j: int|
                0 <= i < j < issued.len() ==> (#[trigger] issued[i]).rank() < (
                #[trigger] issued[j]).rank()
        }),
    decreases events.len(),
{
    if events.len() > 0 {
        lemma_run_is_ordered(machine, events.drop_last());
        let (before, _) = machine.run(events.drop_last());
        if before.next(events.last()) is Some {
            lemma_step_advances(before, events.last());
        }
    }
}

/// In every run the sampling tool is started at most once and awaited at most
/// once, and the samples are asked for at most once.
pub proof fn lemma_sampled_and_fetched_once(machine: Machine, events: Seq<EventView>)
    ensures
        ({
            let (_, issued) = machine.run(events);
            forall|i: int, j: int|
                0 <= i < j < issued.len() ==> {
                    &&& !(#[trigger] issued[i] is Spawn && #[trigger] issued[j] is Spawn)
                    &&& !(issued[i] is Wait && issued[j] is Wait)
                    &&& !(issued[i] is Retrieve && issued[j] is Retrieve)
                }
        }),
{
    lemma_run_is_ordered(machine, events);
    let (_, issued) = machine.run(events);
    assert forall|i: int, j: int| 0 <= i < j < issued.len() implies {
        &&& !(#[trigger] issued[i] is Spawn && #[trigger] issued[j] is Spawn)
        &&& !(issued[i] is Wait && issued[j] is Wait)
        &&& !(issued[i] is Retrieve && issued[j] is Retrieve)
    } by {
        assert(issued[i].rank() < issued[j].rank());
    }
}

/// A run needs few reports: at most eight of them are accepted.
pub proof fn lemma_run_is_short(machine: Machine, events: Seq<EventView>)
    ensures
        machine.run(events).1.len() <= 8 - machine.step.rank(),
{
    lemma_run_is_ordered(machine, events);
    let (after, issued) = machine.run(events);
    lemma_rising_ranks_are_few(issued, machine.step.rank(), after.step.rank());
}

/// Actions of strictly rising rank between two bounds are no more than the
/// bounds leave room for.
proof fn lemma_rising_ranks_are_few(issued: Seq<ActionView>, low: nat, high: nat)
    requires
        low <= high,
        forall|i: int| 0 <= i < issued.len() ==> low < (#[trigger] issued[i]).rank() <= high,
        forall|i: int, j: int|
            0 <= i < j < issued.len() ==> (#[trigger] issued[i]).rank() < (
            #[trigger] issued[j]).rank(),
    ensures
        issued.len() <= high - low,
    decreases issued.len(),
{
    if issued.len() > 0 {
        // All but the last stay below the rank of the last.
        let rest = issued.drop_last();
        let below: nat = (issued.last().rank() - 1) as nat;
        assert forall|i: int| 0 <= i < rest.len() implies low < (#[trigger] rest[i]).rank()
            <= below by {
            assert(rest[i] == issued[i]);
            assert(issued[i].rank() < issued[issued.len() - 1].rank());
        }
        assert forall|i: int, j: int| 0 <= i < j < rest.len() implies (#[trigger] rest[i]).rank()
            < (#[trigger] rest[j]).rank() by {
            assert(rest[i] == issued[i] && rest[j] == issued[j]);
        }
        lemma_rising_ranks_are_few(rest, low, below);
    }
}

/// Whether something has failed on the way to `step`: the run is aborted or
/// about to be.
pub open spec fn has_failed(step: Step) -> bool {
    ||| step is Aborted
    ||| step == Step::Releasing(Pending::SpawnFailed)
    ||| step == Step::Releasing(Pending::WaitFailed)
}

/// From its beginning, a run in which nothing has failed has issued one action
/// for each step up to the one at which it stands, in the order of the
/// pipeline and without a gap. A run that is done has therefore installed the
/// handler, started the tool, waited for it, removed the handler, fetched,
/// collapsed, rendered and finished: each exactly once.
pub proof fn lemma_unfailed_run_skips_nothing(
    backend: SamplerBackend,
    workload: Seq<char>,
    events: Seq<EventView>,
)
    ensures
        ({
            let (after, issued) = Machine::initial(backend, workload).run(events);
            !has_failed(after.step) ==> {
                &&& issued.len() == after.step.rank()
                &&& forall|k: int| 0 <= k < issued.len() ==> (#[trigger] issued[k]).rank() == k + 1
                &&& forall|k: int| 0 <= k < issued.len() ==> !(#[trigger] issued[k] is Abort)
            }
        }),
    decreases events.len(),
{
    if events.len() > 0 {
        lemma_unfailed_run_skips_nothing(backend, workload, events.drop_last());
        let (before, earlier) = Machine::initial(backend, workload).run(events.drop_last());
        if before.next(events.last()) is Some {
            let (after, action) = before.next(events.last())->0;
            lemma_step_advances(before, events.last());
            if !has_failed(after.step) {
                // Where nothing fails, a step leads to the next one in rank.
                assert(!has_failed(before.step));
                assert(after.step.rank() == before.step.rank() + 1);
                let issued = earlier.push(action);
                assert forall|k: int| 0 <= k < issued.len() implies (#[trigger] issued[k]).rank()
                    == k + 1 && !(issued[k] is Abort) by {
                    if k < earlier.len() {
                        assert(issued[k] == earlier[k]);
                    }
                }
            }
        }
    }
}

/// Whether `events` hold the report of an exit after which the pipeline goes on.
pub open spec fn reports_good_exit(events: Seq<EventView>) -> bool {
    exists|k: int|
        0 <= k < events.len() && (#[trigger] events[k] matches EventView::Exited(status)
            && classify_spec(status).proceeds())
}

/// Whether one of `issued` asks for the samples.
pub open spec fn asks_for_samples(issued: Seq<ActionView>) -> bool {
    exists|i: int| 0 <= i < issued.len() && #[trigger] issued[i] is Retrieve
}

/// Whether one of `issued` starts the sampling tool.
pub open spec fn starts_sampling(issued: Seq<ActionView>) -> bool {
    exists|i: int| 0 <= i < issued.len() && #[trigger] issued[i] is Spawn
}

/// Whether one of `issued` asks for the interrupt handler to be removed.
pub open spec fn releases_guard(issued: Seq<ActionView>) -> bool {
    exists|i: int| 0 <= i < issued.len() && #[trigger] issued[i] is ReleaseGuard
}

/// From its beginning, a run asks for the samples only after the sampling
/// tool was reported to have exited in success or by cancellation. A status
/// that is about to be judged is one that was reported.
pub proof fn lemma_samples_follow_good_exit(
    backend: SamplerBackend,
    workload: Seq<char>,
    events: Seq<EventView>,
)
    ensures
        ({
            let (after, issued) = Machine::initial(backend, workload).run(events);
            &&& after.step matches Step::Releasing(Pending::Classify(status)) ==> events.contains(
                EventView::Exited(status),
            )
            &&& asks_for_samples(issued) ==> reports_good_exit(events)
        }),
    decreases events.len(),
{
    if events.len() > 0 {
        let start = Machine::initial(backend, workload);
        let shorter = events.drop_last();
        lemma_samples_follow_good_exit(backend, workload, shorter);
        let (before, earlier) = start.run(shorter);
        let (after, issued) = start.run(events);
        if let Step::Releasing(Pending::Classify(status)) = after.step {
            if before.step == after.step {
                let k: int = choose|k: int|
                    0 <= k < shorter.len() && shorter[k] == EventView::Exited(status);
                assert(events[k] == EventView::Exited(status));
            } else {
                assert(events[events.len() - 1] == EventView::Exited(status));
            }
        }
        if asks_for_samples(issued) {
            if asks_for_samples(earlier) {
                let k: int = choose|k: int|
                    0 <= k < shorter.len() && (#[trigger] shorter[k] matches EventView::Exited(
                        status,
                    ) && classify_spec(status).proceeds());
                assert(events[k] == shorter[k]);
            } else {
                // The samples are asked for in the last step, which judges a
                // status that the shorter run was told of.
                let i: int = choose|i: int|
                    0 <= i < issued.len() && #[trigger] issued[i] is Retrieve;
                assert(i < earlier.len() ==> earlier[i] is Retrieve);
                lemma_judged_after_release(before, events.last());
                let status = before.step->Releasing_0->Classify_0;
                let k: int = choose|k: int|
                    0 <= k < shorter.len() && shorter[k] == EventView::Exited(status);
                assert(events[k] == EventView::Exited(status));
            }
        }
    }
}

/// From its beginning, a run holds the interrupt handler only after it has
/// started the sampling tool, and a run that has started the tool is either
/// still sampling or has asked for the handler to be removed. So the handler is
/// given up on every path out of sampling: before the exit is judged, and before
/// any abort that follows the start.
pub proof fn lemma_guard_is_released(
    backend: SamplerBackend,
    workload: Seq<char>,
    events: Seq<EventView>,
)
    ensures
        ({
            let (after, issued) = Machine::initial(backend, workload).run(events);
            &&& after.step.guard_held() ==> starts_sampling(issued)
            &&& starts_sampling(issued) ==> {
                ||| after.step is Spawning
                ||| after.step is Waiting
                ||| releases_guard(issued)
            }
        }),
    decreases events.len(),
{
    if events.len() > 0 {
        let start = Machine::initial(backend, workload);
        let shorter = events.drop_last();
        lemma_guard_is_released(backend, workload, shorter);
        let (before, earlier) = start.run(shorter);
        let (after, issued) = start.run(events);
        if before.next(events.last()) is Some {
            let (_, action) = before.next(events.last())->0;
            let last: int = issued.len() - 1;
            assert(issued == earlier.push(action));
            lemma_sampling_is_guarded(before, events.last());
            if starts_sampling(earlier) {
                let i: int = choose|i: int|
                    0 <= i < earlier.len() && #[trigger] earlier[i] is Spawn;
                assert(issued[i] is Spawn);
                if releases_guard(earlier) {
                    let j: int = choose|j: int|
                        0 <= j < earlier.len() && #[trigger] earlier[j] is ReleaseGuard;
                    assert(issued[j] is ReleaseGuard);
                } else if !(after.step is Spawning || after.step is Waiting) {
                    assert(issued[last] is ReleaseGuard);
                }
            } else if action is Spawn {
                assert(issued[last] is Spawn);
            } else if starts_sampling(issued) {
                let i: int = choose|i: int| 0 <= i < issued.len() && #[trigger] issued[i] is Spawn;
                assert(earlier[i] is Spawn);
            }
        }
    }
}

} // verus!

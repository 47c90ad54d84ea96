use flamegraph::backend::{CollapseOptions, OutputSource, SamplerBackend};
use flamegraph::command::SamplingCommand;
use flamegraph::error::{FatalError, GuardFailure, RetrievalFailure, TransformStage};
use flamegraph::exit::{ExitStatus, FailureReason, SIGINT, SIGTERM};
use flamegraph::orchestrator::{Action, Event, Orchestrator, Pending, Stage, Step};

fn perf_run() -> Orchestrator {
    Orchestrator::new(SamplerBackend::Perf, "./app --fast".to_string())
}

fn dtrace_run() -> Orchestrator {
    Orchestrator::new(SamplerBackend::Dtrace, "./app --fast".to_string())
}

fn every_event() -> Vec<Event> {
    vec![
        Event::Start,
        Event::GuardAcquired,
        Event::GuardFailed,
        Event::Spawned,
        Event::SpawnFailed,
        Event::Exited(ExitStatus::exited(0)),
        Event::Exited(ExitStatus::exited(1)),
        Event::WaitFailed,
        Event::GuardReleased,
        Event::GuardReleaseFailed,
        Event::OutputRetrieved(vec![1, 2, 3]),
        Event::RetrievalFailed(RetrievalFailure::Open),
        Event::Collapsed(vec![4, 5]),
        Event::CollapseFailed,
        Event::ArtifactWritten,
        Event::ArtifactCreateFailed,
        Event::RenderFailed,
    ]
}

fn rank(action: &Action) -> u32 {
    match action {
        Action::AcquireGuard => 1,
        Action::Spawn(_) => 2,
        Action::Wait => 3,
        Action::ReleaseGuard => 4,
        Action::Retrieve(_) => 5,
        Action::Collapse { .. } => 6,
        Action::Render { .. } => 7,
        Action::Finish => 8,
        Action::Abort(_) => 8,
    }
}

/// Drives `run` up to the moment at which the sampling tool has exited with
/// `status` and the interrupt handler is being removed.
fn sample(run: &mut Orchestrator, status: ExitStatus) {
    assert_eq!(run.step(Event::Start), Some(Action::AcquireGuard));
    assert!(matches!(run.step(Event::GuardAcquired), Some(Action::Spawn(_))));
    assert_eq!(run.step(Event::Spawned), Some(Action::Wait));
    assert_eq!(run.step(Event::Exited(status)), Some(Action::ReleaseGuard));
}

#[test]
fn a_new_run_is_idle() {
    let run = perf_run();
    assert_eq!(run.stage(), Stage::Idle);
    assert_eq!(run.current_step(), Step::Idle);
    assert!(!run.is_finished());
    assert_eq!(run.backend(), SamplerBackend::Perf);
    assert_eq!(run.workload(), "./app --fast");
}

#[test]
fn scenario_normal_exit_reaches_rendering_and_finishes() {
    let mut run = perf_run();
    assert_eq!(run.step(Event::Start), Some(Action::AcquireGuard));
    assert_eq!(run.stage(), Stage::Sampling);
    assert_eq!(
        run.step(Event::GuardAcquired),
        Some(Action::Spawn(SamplingCommand {
            program: "perf".to_string(),
            args: vec![
                "record".to_string(),
                "-F".to_string(),
                "99".to_string(),
                "--call-graph".to_string(),
                "dwarf".to_string(),
                "-g".to_string(),
                "./app".to_string(),
                "--fast".to_string()
            ]
        }))
    );
    assert_eq!(run.stage(), Stage::Sampling);
    assert_eq!(run.step(Event::Spawned), Some(Action::Wait));
    assert_eq!(run.stage(), Stage::Sampling);
    assert_eq!(run.step(Event::Exited(ExitStatus::exited(0))), Some(Action::ReleaseGuard));
    assert_eq!(run.stage(), Stage::Classifying);
    assert_eq!(
        run.step(Event::GuardReleased),
        Some(Action::Retrieve(OutputSource::Stdout(SamplingCommand {
            program: "perf".to_string(),
            args: vec!["script".to_string()]
        })))
    );
    assert_eq!(run.stage(), Stage::Collecting);
    assert_eq!(
        run.step(Event::OutputRetrieved(b"raw samples".to_vec())),
        Some(Action::Collapse {
            raw: b"raw samples".to_vec(),
            options: CollapseOptions { format: SamplerBackend::Perf, demangle: false }
        })
    );
    assert_eq!(run.stage(), Stage::Collapsing);
    assert_eq!(
        run.step(Event::Collapsed(b"main;work 7\n".to_vec())),
        Some(Action::Render { folded: b"main;work 7\n".to_vec() })
    );
    assert_eq!(run.stage(), Stage::Rendering);
    assert!(!run.is_finished());
    let last = run.step(Event::ArtifactWritten);
    assert_eq!(last, Some(Action::Finish));
    assert_eq!(last.unwrap().exit_code(), Some(0));
    assert_eq!(run.stage(), Stage::Done);
    assert_eq!(run.current_step(), Step::Done);
    assert!(run.is_finished());
}

#[test]
fn scenario_interrupted_sampling_still_produces_the_artifact() {
    for signal in [SIGINT, SIGTERM] {
        let mut run = dtrace_run();
        sample(&mut run, ExitStatus::signaled(signal));
        assert_eq!(run.stage(), Stage::Classifying);
        assert_eq!(
            run.step(Event::GuardReleased),
            Some(Action::Retrieve(OutputSource::File("cargo-flamegraph.stacks".to_string())))
        );
        assert_eq!(
            run.step(Event::OutputRetrieved(b"partial".to_vec())),
            Some(Action::Collapse {
                raw: b"partial".to_vec(),
                options: CollapseOptions { format: SamplerBackend::Dtrace, demangle: true }
            })
        );
        assert_eq!(
            run.step(Event::Collapsed(b"a;b 1\n".to_vec())),
            Some(Action::Render { folded: b"a;b 1\n".to_vec() })
        );
        assert_eq!(run.stage(), Stage::Rendering);
        assert_eq!(run.step(Event::ArtifactWritten), Some(Action::Finish));
        assert_eq!(run.stage(), Stage::Done);
    }
}

#[test]
fn scenario_failed_sampling_aborts_with_exit_code_one_and_no_artifact() {
    let mut run = perf_run();
    sample(&mut run, ExitStatus::exited(1));
    let error = FatalError::SamplingFailed(FailureReason::ExitCode(1));
    let answer = run.step(Event::GuardReleased);
    assert_eq!(answer, Some(Action::Abort(error)));
    assert_eq!(answer.unwrap().exit_code(), Some(1));
    assert_eq!(error.exit_code(), 1);
    assert_eq!(error.message(run.backend()), "failed to sample program");
    assert_eq!(run.stage(), Stage::Aborted);
    assert_eq!(run.current_step(), Step::Aborted(error));
    assert!(run.is_finished());
    for event in every_event() {
        assert_eq!(run.step(event), None);
        assert_eq!(run.current_step(), Step::Aborted(error));
    }
}

#[test]
fn scenario_missing_samples_abort_with_exit_code_one() {
    let mut run = dtrace_run();
    sample(&mut run, ExitStatus::exited(0));
    assert!(matches!(run.step(Event::GuardReleased), Some(Action::Retrieve(_))));
    let error = FatalError::OutputRetrievalFailed(RetrievalFailure::Open);
    let answer = run.step(Event::RetrievalFailed(RetrievalFailure::Open));
    assert_eq!(answer, Some(Action::Abort(error)));
    assert_eq!(answer.unwrap().exit_code(), Some(1));
    assert_eq!(
        error.message(run.backend()),
        "failed to open dtrace output file cargo-flamegraph.stacks"
    );
    assert_eq!(run.stage(), Stage::Aborted);
    assert!(run.is_finished());
    assert_eq!(run.step(Event::RetrievalFailed(RetrievalFailure::Open)), None);
    assert_eq!(run.step(Event::OutputRetrieved(vec![1])), None);
}

#[test]
fn samples_are_asked_for_once() {
    let mut run = dtrace_run();
    sample(&mut run, ExitStatus::exited(0));
    assert!(matches!(run.step(Event::GuardReleased), Some(Action::Retrieve(_))));
    assert_eq!(run.step(Event::GuardReleased), None);
    assert!(matches!(run.step(Event::OutputRetrieved(vec![1])), Some(Action::Collapse { .. })));
    for event in [Event::GuardReleased, Event::OutputRetrieved(vec![1]), Event::Start] {
        assert_eq!(run.step(event), None);
    }
}

#[test]
fn failed_sampling_by_signal_or_without_information_aborts() {
    for (status, reason) in [
        (ExitStatus::signaled(9), FailureReason::Signal(9)),
        (ExitStatus::signaled(11), FailureReason::Signal(11)),
        (ExitStatus::exited(130), FailureReason::ExitCode(130)),
        (ExitStatus { success: false, code: None, signal: None }, FailureReason::Unknown),
    ] {
        let mut run = perf_run();
        sample(&mut run, status);
        assert_eq!(
            run.step(Event::GuardReleased),
            Some(Action::Abort(FatalError::SamplingFailed(reason)))
        );
        assert!(run.is_finished());
    }
}

#[test]
fn success_wins_over_a_signal_in_the_run() {
    let mut run = perf_run();
    sample(&mut run, ExitStatus { success: true, code: None, signal: Some(9) });
    assert!(matches!(run.step(Event::GuardReleased), Some(Action::Retrieve(_))));
}

#[test]
fn guard_failure_aborts_before_sampling() {
    let mut run = perf_run();
    assert_eq!(run.step(Event::Start), Some(Action::AcquireGuard));
    let error = FatalError::SignalGuardFailed(GuardFailure::Acquire);
    assert_eq!(run.step(Event::GuardFailed), Some(Action::Abort(error)));
    assert_eq!(error.message(SamplerBackend::Perf), "cannot register signal handler");
    assert_eq!(run.stage(), Stage::Aborted);
    assert_eq!(run.step(Event::GuardAcquired), None);
}

#[test]
fn spawn_failure_releases_the_guard_and_then_aborts() {
    for report in [Event::GuardReleased, Event::GuardReleaseFailed] {
        let mut run = dtrace_run();
        assert_eq!(run.step(Event::Start), Some(Action::AcquireGuard));
        assert!(matches!(run.step(Event::GuardAcquired), Some(Action::Spawn(_))));
        assert_eq!(run.step(Event::SpawnFailed), Some(Action::ReleaseGuard));
        assert_eq!(run.current_step(), Step::Releasing(Pending::SpawnFailed));
        assert_eq!(run.stage(), Stage::Sampling);
        assert_eq!(run.step(report), Some(Action::Abort(FatalError::SpawnFailed)));
        assert_eq!(FatalError::SpawnFailed.message(run.backend()), "could not spawn dtrace");
        assert_eq!(run.stage(), Stage::Aborted);
    }
}

#[test]
fn wait_failure_releases_the_guard_and_then_aborts() {
    for report in [Event::GuardReleased, Event::GuardReleaseFailed] {
        let mut run = perf_run();
        assert_eq!(run.step(Event::Start), Some(Action::AcquireGuard));
        assert!(matches!(run.step(Event::GuardAcquired), Some(Action::Spawn(_))));
        assert_eq!(run.step(Event::Spawned), Some(Action::Wait));
        assert_eq!(run.step(Event::WaitFailed), Some(Action::ReleaseGuard));
        assert_eq!(run.current_step(), Step::Releasing(Pending::WaitFailed));
        assert_eq!(run.step(report), Some(Action::Abort(FatalError::WaitFailed)));
        assert_eq!(
            FatalError::WaitFailed.message(run.backend()),
            "unable to wait for perf child command to exit"
        );
    }
}

#[test]
fn a_guard_that_cannot_be_removed_aborts_the_run() {
    for status in [ExitStatus::exited(0), ExitStatus::exited(1), ExitStatus::signaled(SIGINT)] {
        let mut run = perf_run();
        sample(&mut run, status);
        assert_eq!(
            run.step(Event::GuardReleaseFailed),
            Some(Action::Abort(FatalError::SignalGuardFailed(GuardFailure::Release)))
        );
        assert!(run.is_finished());
    }
}

#[test]
fn retrieval_failures_abort_with_their_own_error() {
    for failure in [
        RetrievalFailure::Capture,
        RetrievalFailure::Open,
        RetrievalFailure::Read,
        RetrievalFailure::Remove,
    ] {
        let mut run = perf_run();
        sample(&mut run, ExitStatus::exited(0));
        assert!(matches!(run.step(Event::GuardReleased), Some(Action::Retrieve(_))));
        assert_eq!(
            run.step(Event::RetrievalFailed(failure)),
            Some(Action::Abort(FatalError::OutputRetrievalFailed(failure)))
        );
    }
}

#[test]
fn collapse_failure_aborts() {
    let mut run = perf_run();
    sample(&mut run, ExitStatus::exited(0));
    assert!(matches!(run.step(Event::GuardReleased), Some(Action::Retrieve(_))));
    assert!(matches!(run.step(Event::OutputRetrieved(vec![])), Some(Action::Collapse { .. })));
    assert_eq!(
        run.step(Event::CollapseFailed),
        Some(Action::Abort(FatalError::TransformFailed(TransformStage::Collapse)))
    );
    assert_eq!(run.stage(), Stage::Aborted);
}

#[test]
fn render_failures_abort() {
    for (report, error) in [
        (Event::RenderFailed, FatalError::TransformFailed(TransformStage::Render)),
        (Event::ArtifactCreateFailed, FatalError::ArtifactWriteFailed),
    ] {
        let mut run = perf_run();
        sample(&mut run, ExitStatus::exited(0));
        assert!(matches!(run.step(Event::GuardReleased), Some(Action::Retrieve(_))));
        assert!(matches!(run.step(Event::OutputRetrieved(vec![])), Some(Action::Collapse { .. })));
        assert!(matches!(run.step(Event::Collapsed(vec![])), Some(Action::Render { .. })));
        assert_eq!(run.step(report), Some(Action::Abort(error)));
        assert_eq!(run.stage(), Stage::Aborted);
    }
}

#[test]
fn empty_samples_are_handed_on_like_any_other() {
    let mut run = perf_run();
    sample(&mut run, ExitStatus::signaled(SIGINT));
    assert!(matches!(run.step(Event::GuardReleased), Some(Action::Retrieve(_))));
    assert_eq!(
        run.step(Event::OutputRetrieved(Vec::new())),
        Some(Action::Collapse {
            raw: Vec::new(),
            options: CollapseOptions { format: SamplerBackend::Perf, demangle: false }
        })
    );
    assert_eq!(run.step(Event::Collapsed(Vec::new())), Some(Action::Render { folded: Vec::new() }));
}

#[test]
fn a_report_that_is_not_awaited_changes_nothing() {
    let mut run = perf_run();
    for event in every_event() {
        if event != Event::Start {
            assert_eq!(run.step(event), None);
            assert_eq!(run.current_step(), Step::Idle);
        }
    }
    assert_eq!(run.step(Event::Start), Some(Action::AcquireGuard));
    for event in every_event() {
        if event != Event::GuardAcquired && event != Event::GuardFailed {
            assert_eq!(run.step(event), None);
            assert_eq!(run.current_step(), Step::AcquiringGuard);
        }
    }
}

#[test]
fn a_finished_run_accepts_nothing() {
    let mut run = perf_run();
    sample(&mut run, ExitStatus::exited(0));
    run.step(Event::GuardReleased);
    run.step(Event::OutputRetrieved(vec![]));
    run.step(Event::Collapsed(vec![]));
    assert_eq!(run.step(Event::ArtifactWritten), Some(Action::Finish));
    for event in every_event() {
        assert_eq!(run.step(event), None);
        assert_eq!(run.current_step(), Step::Done);
    }
}

#[test]
fn actions_that_end_the_program_have_an_exit_code() {
    assert_eq!(Action::Finish.exit_code(), Some(0));
    assert_eq!(Action::Abort(FatalError::SpawnFailed).exit_code(), Some(1));
    assert_eq!(Action::Abort(FatalError::ArtifactWriteFailed).exit_code(), Some(1));
    assert_eq!(Action::AcquireGuard.exit_code(), None);
    assert_eq!(Action::Wait.exit_code(), None);
    assert_eq!(Action::ReleaseGuard.exit_code(), None);
    assert_eq!(Action::Render { folded: vec![] }.exit_code(), None);
}

#[test]
fn steps_belong_to_stages() {
    assert_eq!(Step::Idle.stage(), Stage::Idle);
    assert_eq!(Step::AcquiringGuard.stage(), Stage::Sampling);
    assert_eq!(Step::Spawning.stage(), Stage::Sampling);
    assert_eq!(Step::Waiting.stage(), Stage::Sampling);
    assert_eq!(Step::Releasing(Pending::SpawnFailed).stage(), Stage::Sampling);
    assert_eq!(Step::Releasing(Pending::WaitFailed).stage(), Stage::Sampling);
    assert_eq!(
        Step::Releasing(Pending::Classify(ExitStatus::exited(0))).stage(),
        Stage::Classifying
    );
    assert_eq!(Step::Collecting.stage(), Stage::Collecting);
    assert_eq!(Step::Collapsing.stage(), Stage::Collapsing);
    assert_eq!(Step::Rendering.stage(), Stage::Rendering);
    assert_eq!(Step::Done.stage(), Stage::Done);
    assert_eq!(Step::Aborted(FatalError::WaitFailed).stage(), Stage::Aborted);
}

#[test]
fn replay_of_a_whole_run() {
    let mut run = perf_run();
    let issued = run.replay(vec![
        Event::Start,
        Event::GuardAcquired,
        Event::Spawned,
        Event::Exited(ExitStatus::exited(0)),
        Event::GuardReleased,
        Event::OutputRetrieved(vec![7]),
        Event::Collapsed(vec![8, 9]),
        Event::ArtifactWritten,
    ]);
    assert_eq!(issued.len(), 8);
    assert_eq!(issued[0], Action::AcquireGuard);
    assert!(matches!(issued[1], Action::Spawn(_)));
    assert_eq!(issued[2], Action::Wait);
    assert_eq!(issued[3], Action::ReleaseGuard);
    assert!(matches!(issued[4], Action::Retrieve(_)));
    assert_eq!(
        issued[5],
        Action::Collapse {
            raw: vec![7],
            options: CollapseOptions { format: SamplerBackend::Perf, demangle: false }
        }
    );
    assert_eq!(issued[6], Action::Render { folded: vec![8, 9] });
    assert_eq!(issued[7], Action::Finish);
    assert!(run.is_finished());
}

#[test]
fn replay_passes_over_reports_that_are_not_awaited() {
    let mut run = dtrace_run();
    let issued = run.replay(vec![
        Event::Spawned,
        Event::Start,
        Event::Start,
        Event::ArtifactWritten,
        Event::GuardAcquired,
        Event::GuardAcquired,
        Event::SpawnFailed,
        Event::Spawned,
        Event::GuardReleased,
        Event::GuardReleased,
        Event::Start,
    ]);
    assert_eq!(issued.len(), 4);
    assert_eq!(issued[0], Action::AcquireGuard);
    assert!(matches!(issued[1], Action::Spawn(_)));
    assert_eq!(issued[2], Action::ReleaseGuard);
    assert_eq!(issued[3], Action::Abort(FatalError::SpawnFailed));
    assert_eq!(run.current_step(), Step::Aborted(FatalError::SpawnFailed));
}

#[test]
fn replay_of_nothing_issues_nothing() {
    let mut run = perf_run();
    assert_eq!(run.replay(Vec::new()), Vec::<Action>::new());
    assert_eq!(run.current_step(), Step::Idle);
}

#[test]
fn replay_continues_where_the_run_stands() {
    let mut run = perf_run();
    sample(&mut run, ExitStatus::exited(0));
    let issued = run.replay(vec![
        Event::GuardReleased,
        Event::RetrievalFailed(RetrievalFailure::Capture),
    ]);
    assert_eq!(issued.len(), 2);
    assert!(matches!(issued[0], Action::Retrieve(_)));
    assert_eq!(
        issued[1],
        Action::Abort(FatalError::OutputRetrievalFailed(RetrievalFailure::Capture))
    );
}

/// A small generator of report sequences, the same on every machine.
fn reports(seed: u64, len: usize) -> Vec<Event> {
    let kinds = every_event().len();
    let mut state = seed.wrapping_mul(6364136223846793005).wrapping_add(1442695040888963407);
    let mut picked = Vec::new();
    for _ in 0..len {
        state = state.wrapping_mul(6364136223846793005).wrapping_add(1442695040888963407);
        picked.push(every_event().swap_remove(((state >> 33) as usize) % kinds));
    }
    picked
}

#[test]
fn whatever_is_reported_actions_come_in_pipeline_order_and_at_most_once() {
    for seed in 0..400u64 {
        for backend in [SamplerBackend::Perf, SamplerBackend::Dtrace] {
            let mut run = Orchestrator::new(backend, "w".to_string());
            let issued = run.replay(reports(seed, 60));
            assert!(issued.len() <= 8);
            for pair in issued.windows(2) {
                assert!(rank(&pair[0]) < rank(&pair[1]));
            }
            if let Some(first) = issued.first() {
                assert_eq!(*first, Action::AcquireGuard);
            }
            assert_eq!(run.backend(), backend);
            assert_eq!(run.workload(), "w");
        }
    }
}

#[test]
fn whatever_is_reported_a_started_tool_has_its_guard_released_before_anything_else() {
    for seed in 0..400u64 {
        let mut run = Orchestrator::new(SamplerBackend::Perf, "w".to_string());
        let issued = run.replay(reports(seed, 80));
        let spawned = issued.iter().any(|a| matches!(a, Action::Spawn(_)));
        let released = issued.iter().any(|a| *a == Action::ReleaseGuard);
        let sampling = matches!(run.current_step(), Step::Spawning | Step::Waiting);
        if spawned {
            assert!(sampling || released);
        }
        for (at, action) in issued.iter().enumerate() {
            let after_sampling = matches!(
                action,
                Action::Retrieve(_)
                    | Action::Collapse { .. }
                    | Action::Render { .. }
                    | Action::Finish
                    | Action::Abort(FatalError::SamplingFailed(_))
            );
            if after_sampling {
                assert!(issued[..at].contains(&Action::ReleaseGuard));
            }
        }
    }
}

#[test]
fn whatever_is_reported_samples_are_fetched_only_after_a_good_exit() {
    for seed in 0..400u64 {
        let events = reports(seed, 80);
        let good_exit = events.iter().any(|e| *e == Event::Exited(ExitStatus::exited(0)));
        let mut run = Orchestrator::new(SamplerBackend::Dtrace, "w".to_string());
        let issued = run.replay(events);
        if issued.iter().any(|a| matches!(a, Action::Retrieve(_))) {
            assert!(good_exit);
        }
    }
}

use portkeeper::coordinator::CoordinatorPhase;
use portkeeper::coordinator::ExitCoordinator;
use portkeeper::signals::JoinContext;
use portkeeper::signals::TerminationSignal;
use portkeeper::signals::choose_join_context;
use portkeeper::signals::dispatch_signal;
use portkeeper::task::AbortOutcome;
use portkeeper::task::StartOutcome;
use portkeeper::task::TaskLifecycle;
use portkeeper::task::TaskState;

#[test]
fn two_signals_cleanup_runs_once_after_stop() {
    // Register coordinator with a task and a cleanup action; fire two
    // termination signals; the cleanup action runs exactly once, and the
    // task is observed stopped before it runs.
    let mut c = ExitCoordinator::register(TaskLifecycle::new());
    assert_eq!(c.start_task(), StartOutcome::Spawned);
    assert_eq!(c.phase, CoordinatorPhase::Active);

    let mut cleanup_calls: u32 = 0;
    for signal in [TerminationSignal::Interrupt, TerminationSignal::ConsoleClose] {
        let directive = dispatch_signal(signal, &mut c);
        if directive.run_cleanup {
            // The cleanup action observes the task fully stopped.
            assert_eq!(c.task.state, TaskState::Stopped);
            cleanup_calls += 1;
        }
    }
    assert_eq!(cleanup_calls, 1);
    assert_eq!(c.phase, CoordinatorPhase::ShuttingDown);
}

#[test]
fn many_shutdown_calls_cleanup_runs_once() {
    let mut c = ExitCoordinator::register(TaskLifecycle::new());
    assert_eq!(c.start_task(), StartOutcome::Spawned);
    let mut cleanup_calls: u32 = 0;
    for _ in 0..5 {
        if c.shutdown().run_cleanup {
            cleanup_calls += 1;
        }
    }
    assert_eq!(cleanup_calls, 1);
}

#[test]
fn first_shutdown_aborts_later_ones_ignore() {
    let mut c = ExitCoordinator::register(TaskLifecycle::new());
    assert_eq!(c.start_task(), StartOutcome::Spawned);
    let first = c.shutdown();
    let second = c.shutdown();
    assert_eq!(first.abort, AbortOutcome::Aborted);
    assert!(first.run_cleanup);
    assert_eq!(second.abort, AbortOutcome::Ignored);
    assert!(!second.run_cleanup);
}

#[test]
fn shutdown_before_start_still_cleans_up() {
    // A signal can fire before the task was ever started; cleanup is still
    // owed once, and there is nothing to abort.
    let mut c = ExitCoordinator::register(TaskLifecycle::new());
    let directive = c.shutdown();
    assert_eq!(directive.abort, AbortOutcome::Ignored);
    assert!(directive.run_cleanup);
    // A stale start after shutdown must not spawn.
    assert_eq!(c.start_task(), StartOutcome::Ignored);
}

#[test]
fn every_signal_variant_behaves_alike() {
    let signals = [
        TerminationSignal::Interrupt,
        TerminationSignal::Terminate,
        TerminationSignal::ConsoleClose,
        TerminationSignal::Fault,
    ];
    let mut outcomes = Vec::new();
    for signal in signals {
        let mut c = ExitCoordinator::register(TaskLifecycle::new());
        assert_eq!(c.start_task(), StartOutcome::Spawned);
        let directive = dispatch_signal(signal, &mut c);
        outcomes.push((directive, c));
    }
    for pair in outcomes.windows(2) {
        assert_eq!(pair[0], pair[1]);
    }
}

#[test]
fn terminated_phase_is_recorded_after_cleanup() {
    let mut c = ExitCoordinator::register(TaskLifecycle::new());
    assert_eq!(c.start_task(), StartOutcome::Spawned);
    let directive = c.shutdown();
    assert!(directive.run_cleanup);
    c.mark_terminated();
    assert_eq!(c.phase, CoordinatorPhase::Terminated);
}

#[test]
fn join_context_follows_ambient_scheduler() {
    assert_eq!(choose_join_context(true), JoinContext::AmbientScheduler);
    assert_eq!(choose_join_context(false), JoinContext::PrivateScheduler);
}

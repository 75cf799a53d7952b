use portkeeper::task::classify_join;
use portkeeper::task::AbortOutcome;
use portkeeper::task::JoinReport;
use portkeeper::task::StartOutcome;
use portkeeper::task::TaskLifecycle;
use portkeeper::task::TaskState;

#[test]
fn new_task_is_idle() {
    let t = TaskLifecycle::new();
    assert_eq!(t.state, TaskState::Idle);
}

#[test]
fn start_twice_runs_work_once() {
    // The work increments a counter once; two start calls in quick
    // succession must leave the counter at one.
    let mut t = TaskLifecycle::new();
    let mut counter: u32 = 0;
    for _ in 0..2 {
        if t.on_start() == StartOutcome::Spawned {
            counter += 1;
        }
    }
    assert_eq!(counter, 1);
    assert_eq!(t.state, TaskState::Running);
}

#[test]
fn abort_without_start_is_noop() {
    let mut t = TaskLifecycle::new();
    assert_eq!(t.on_abort(), AbortOutcome::Ignored);
    assert_eq!(t.state, TaskState::Idle);
}

#[test]
fn redundant_aborts_join_exactly_once() {
    let mut t = TaskLifecycle::new();
    assert_eq!(t.on_start(), StartOutcome::Spawned);
    let mut real_aborts: u32 = 0;
    for _ in 0..3 {
        if t.on_abort() == AbortOutcome::Aborted {
            real_aborts += 1;
        }
        // Every abort call returns only with the task no longer running.
        assert_ne!(t.state, TaskState::Running);
    }
    assert_eq!(real_aborts, 1);
    assert_eq!(t.state, TaskState::Stopped);
}

#[test]
fn cancellation_is_not_an_error() {
    // A join that ended through the cancellation itself is a clean stop;
    // only an error of the work's own is reported.
    assert_eq!(classify_join(true, true), JoinReport::Stopped);
    assert_eq!(classify_join(true, false), JoinReport::StoppedWithError);
    assert_eq!(classify_join(false, false), JoinReport::Stopped);
    assert_eq!(classify_join(false, true), JoinReport::Stopped);
}

#[test]
fn start_after_abort_is_ignored() {
    let mut t = TaskLifecycle::new();
    assert_eq!(t.on_start(), StartOutcome::Spawned);
    assert_eq!(t.on_abort(), AbortOutcome::Aborted);
    assert_eq!(t.on_start(), StartOutcome::Ignored);
    assert_eq!(t.state, TaskState::Stopped);
}

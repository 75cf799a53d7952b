//! The cancelable-task lifecycle: a unit of work that is constructed without
//! running, started at most once, and aborted-and-joined at most once.
//!
//! The state machine here is the load-bearing mechanism of the whole crate.
//! The surrounding process serializes every control call through one lock and
//! consults [`TaskLifecycle`] under that lock; the contracts then guarantee
//! that no interleaving of start and abort calls can spawn a second execution
//! or abort the same execution twice.

use vstd::prelude::*;

verus! {

/// The lifecycle state of the single long-running unit of work.
///
/// `Idle` means constructed but never started; `Running` means one execution
/// has been spawned and not yet stopped; `Stopped` means the execution was
/// cancelled and fully joined.  `Running` is entered at most once and never
/// re-entered.
#[derive(Clone, Copy, Debug, PartialEq, Eq, Structural)]
pub enum TaskState {
    Idle,
    Running,
    Stopped,
}

/// A control call on the task, as seen by the lifecycle state machine.
#[derive(Clone, Copy, Debug, PartialEq, Eq, Structural)]
pub enum TaskEvent {
    Start,
    Abort,
}

/// What a start call obliges the caller to do.
#[derive(Clone, Copy, Debug, PartialEq, Eq, Structural)]
pub enum StartOutcome {
    /// The caller must now spawn the stored work; this outcome is produced at
    /// most once per task.
    Spawned,
    /// The task was already running or stopped: the call is a no-op.
    Ignored,
}

/// What an abort call obliges the caller to do.
#[derive(Clone, Copy, Debug, PartialEq, Eq, Structural)]
pub enum AbortOutcome {
    /// The caller must cancel the running execution and block until it has
    /// fully unwound; this outcome is produced at most once per task.
    Aborted,
    /// Nothing was running: the call is a no-op.
    Ignored,
}

/// What one control event does to the lifecycle state.
///
/// Only `Idle` reacts to `Start` and only `Running` reacts to `Abort`; every
/// other combination leaves the state unchanged.
pub open spec fn step(s: TaskState, e: TaskEvent) -> TaskState {
    match e {
        TaskEvent::Start => if s is Idle { TaskState::Running } else { s },
        TaskEvent::Abort => if s is Running { TaskState::Stopped } else { s },
    }
}

/// The state after a whole sequence of control events, applied in order.
pub open spec fn run(s: TaskState, events: Seq<TaskEvent>) -> TaskState
    decreases events.len(),
{
    if events.len() == 0 {
        s
    } else {
        run(step(s, events[0]), events.drop_first())
    }
}

/// How many events of the sequence spawn an execution when applied from `s`.
pub open spec fn spawns(s: TaskState, events: Seq<TaskEvent>) -> int
    decreases events.len(),
{
    if events.len() == 0 {
        0
    } else {
        (if s is Idle && events[0] is Start {
            1int
        } else {
            0int
        }) + spawns(step(s, events[0]), events.drop_first())
    }
}

/// How many events of the sequence perform the real cancellation-and-join
/// when applied from `s`.
pub open spec fn real_aborts(s: TaskState, events: Seq<TaskEvent>) -> int
    decreases events.len(),
{
    if events.len() == 0 {
        0
    } else {
        (if s is Running && events[0] is Abort {
            1int
        } else {
            0int
        }) + real_aborts(step(s, events[0]), events.drop_first())
    }
}

/// Whether the sequence contains a start call at all.
pub open spec fn has_start(events: Seq<TaskEvent>) -> bool {
    exists|i: int| 0 <= i < events.len() && events[i] is Start
}

/// Whether the sequence contains an abort call at all.
pub open spec fn has_abort(events: Seq<TaskEvent>) -> bool {
    exists|i: int| 0 <= i < events.len() && events[i] is Abort
}

/// Whether some abort call comes after some start call.
pub open spec fn start_then_abort(events: Seq<TaskEvent>) -> bool {
    exists|i: int, j: int|
        0 <= i < j < events.len() && #[trigger] events[i] is Start && #[trigger] events[j] is Abort
}

proof fn lemma_has_start_shift(events: Seq<TaskEvent>)
    requires
        events.len() > 0,
    ensures
        has_start(events) == (events[0] is Start || has_start(events.drop_first())),
{
    let rest = events.drop_first();
    if has_start(rest) {
        let k = choose|k: int| 0 <= k < rest.len() && rest[k] is Start;
        assert(events[k + 1] is Start);
    }
    if has_start(events) && !(events[0] is Start) {
        let i = choose|i: int| 0 <= i < events.len() && events[i] is Start;
        assert(rest[i - 1] is Start);
    }
}

proof fn lemma_has_abort_shift(events: Seq<TaskEvent>)
    requires
        events.len() > 0,
    ensures
        has_abort(events) == (events[0] is Abort || has_abort(events.drop_first())),
{
    let rest = events.drop_first();
    if has_abort(rest) {
        let k = choose|k: int| 0 <= k < rest.len() && rest[k] is Abort;
        assert(events[k + 1] is Abort);
    }
    if has_abort(events) && !(events[0] is Abort) {
        let i = choose|i: int| 0 <= i < events.len() && events[i] is Abort;
        assert(rest[i - 1] is Abort);
    }
}

proof fn lemma_start_then_abort_shift(events: Seq<TaskEvent>)
    requires
        events.len() > 0,
    ensures
        events[0] is Start ==> start_then_abort(events) == has_abort(events.drop_first()),
        events[0] !is Start ==> start_then_abort(events) == start_then_abort(events.drop_first()),
{
    let rest = events.drop_first();
    if events[0] is Start {
        if has_abort(rest) {
            let k = choose|k: int| 0 <= k < rest.len() && rest[k] is Abort;
            assert(events[0] is Start && events[k + 1] is Abort);
            assert(start_then_abort(events));
        }
        if start_then_abort(events) {
            let (i, j) = choose|i: int, j: int|
                0 <= i < j < events.len() && #[trigger] events[i] is Start && #[trigger] events[j] is Abort;
            assert(rest[j - 1] is Abort);
        }
    } else {
        if start_then_abort(rest) {
            let (i, j) = choose|i: int, j: int|
                0 <= i < j < rest.len() && #[trigger] rest[i] is Start && #[trigger] rest[j] is Abort;
            assert(events[i + 1] is Start && events[j + 1] is Abort);
            assert(start_then_abort(events));
        }
        if start_then_abort(events) {
            let (i, j) = choose|i: int, j: int|
                0 <= i < j < events.len() && #[trigger] events[i] is Start && #[trigger] events[j] is Abort;
            assert(rest[i - 1] is Start && rest[j - 1] is Abort);
            assert(start_then_abort(rest));
        }
    }
}

/// The exact number of spawns a sequence of control calls performs, from any
/// starting state: from `Idle` it is one when the sequence contains a start
/// call and zero otherwise, and from any other state it is zero.
pub proof fn lemma_spawn_count(s: TaskState, events: Seq<TaskEvent>)
    ensures
        spawns(s, events) == if s is Idle && has_start(events) { 1int } else { 0int },
    decreases events.len(),
{
    if events.len() > 0 {
        lemma_has_start_shift(events);
        lemma_spawn_count(step(s, events[0]), events.drop_first());
    }
}

/// At most one underlying execution is ever spawned, regardless of how many
/// start (and abort) calls are made and in what order.
pub proof fn lemma_start_once(events: Seq<TaskEvent>)
    ensures
        spawns(TaskState::Idle, events) <= 1,
        spawns(TaskState::Idle, events) == if has_start(events) { 1int } else { 0int },
{
    lemma_spawn_count(TaskState::Idle, events);
}

/// The exact number of real cancellation-and-joins a sequence of control
/// calls performs: from `Idle` it is one exactly when some abort call comes
/// after some start call; from `Running` it is one exactly when there is any
/// abort call; from `Stopped` it is zero.
pub proof fn lemma_real_abort_count(s: TaskState, events: Seq<TaskEvent>)
    ensures
        real_aborts(s, events) == match s {
            TaskState::Idle => if start_then_abort(events) { 1int } else { 0int },
            TaskState::Running => if has_abort(events) { 1int } else { 0int },
            TaskState::Stopped => 0int,
        },
    decreases events.len(),
{
    if events.len() > 0 {
        lemma_has_abort_shift(events);
        lemma_start_then_abort_shift(events);
        lemma_real_abort_count(step(s, events[0]), events.drop_first());
    }
}

/// Exactly one abort call performs the real cancellation-and-join: one when
/// the task was started and an abort call followed, zero otherwise; never
/// more, however many abort calls race.
pub proof fn lemma_abort_once(events: Seq<TaskEvent>)
    ensures
        real_aborts(TaskState::Idle, events) <= 1,
        real_aborts(TaskState::Idle, events) == if start_then_abort(events) { 1int } else { 0int },
{
    lemma_real_abort_count(TaskState::Idle, events);
}

/// No abort call returns while the execution still runs: whatever the state
/// was, after an abort event it is not `Running`.
pub proof fn lemma_abort_stops(s: TaskState)
    ensures
        step(s, TaskEvent::Abort) !is Running,
{
}

/// Where a sequence of control calls leaves the task, exactly.  From `Idle`:
/// stopped once a start was followed by an abort, running once started and
/// never aborted afterwards, idle otherwise.  `Running` is left by the first
/// abort and `Stopped` is never left.
pub proof fn lemma_run_state(s: TaskState, events: Seq<TaskEvent>)
    ensures
        run(s, events) == match s {
            TaskState::Idle => if start_then_abort(events) {
                TaskState::Stopped
            } else if has_start(events) {
                TaskState::Running
            } else {
                TaskState::Idle
            },
            TaskState::Running => if has_abort(events) {
                TaskState::Stopped
            } else {
                TaskState::Running
            },
            TaskState::Stopped => TaskState::Stopped,
        },
    decreases events.len(),
{
    if events.len() > 0 {
        lemma_has_start_shift(events);
        lemma_has_abort_shift(events);
        lemma_start_then_abort_shift(events);
        lemma_run_state(step(s, events[0]), events.drop_first());
    }
}

/// How the joined execution ended, as reported after an abort-and-wait.
#[derive(Clone, Copy, Debug, PartialEq, Eq, Structural)]
pub enum JoinReport {
    /// The work returned, or ended through the cancellation itself.
    Stopped,
    /// The work ended with an error of its own: reported, never propagated
    /// as a fault of the abort — the contract is "task is stopped", not
    /// "task succeeded".
    StoppedWithError,
}

/// Classify how the joined execution ended.  Cancellation is not an error:
/// a task ending because it was aborted is a successful stop, distinct from
/// its work failing on its own.
pub fn classify_join(ended_in_error: bool, cancelled: bool) -> (r: JoinReport)
    ensures
        r is StoppedWithError <==> (ended_in_error && !cancelled),
{
    if ended_in_error && !cancelled {
        JoinReport::StoppedWithError
    } else {
        JoinReport::Stopped
    }
}

/// The lifecycle of the one managed task.
///
/// This is the exclusive slot that start and abort calls race for; the process
/// wraps it in a lock so that each call observes and updates it atomically.
#[derive(Clone, Copy, Debug, PartialEq, Eq, Structural)]
pub struct TaskLifecycle {
    pub state: TaskState,
}

impl TaskLifecycle {
    /// Construction stores the work without running it: the task is `Idle`.
    pub fn new() -> (t: TaskLifecycle)
        ensures
            t.state is Idle,
    {
        TaskLifecycle { state: TaskState::Idle }
    }

    /// The check-and-transition of a start call.
    ///
    /// Exactly the `Idle` state yields `Spawned`; a running or stopped task
    /// ignores the call, so no sequence of calls can spawn twice.
    pub fn on_start(&mut self) -> (o: StartOutcome)
        ensures
            final(self).state == step(old(self).state, TaskEvent::Start),
            o is Spawned <==> old(self).state is Idle,
            o is Spawned ==> final(self).state is Running,
            o is Ignored ==> *final(self) == *old(self),
    {
        match self.state {
            TaskState::Idle => {
                self.state = TaskState::Running;
                StartOutcome::Spawned
            },
            _ => StartOutcome::Ignored,
        }
    }

    /// The check-and-transition of an abort-and-wait call.
    ///
    /// Exactly the `Running` state yields `Aborted`; every caller returns
    /// with the task no longer running, and only one caller is ever told to
    /// perform the real cancellation-and-join.
    pub fn on_abort(&mut self) -> (o: AbortOutcome)
        ensures
            final(self).state == step(old(self).state, TaskEvent::Abort),
            o is Aborted <==> old(self).state is Running,
            final(self).state !is Running,
            o is Ignored ==> *final(self) == *old(self),
    {
        match self.state {
            TaskState::Running => {
                self.state = TaskState::Stopped;
                AbortOutcome::Aborted
            },
            _ => AbortOutcome::Ignored,
        }
    }
}

} // verus!

//! The exit coordinator: the single point of truth for "the process is
//! shutting down".
//!
//! It owns the lifecycle of the one managed task and a dedicated one-shot
//! latch for the cleanup action.  Every termination trigger funnels into
//! [`ExitCoordinator::shutdown`]; the contracts guarantee that the task is no
//! longer running when any such call returns, and that exactly one of the
//! callers — however many race — is told to run the cleanup action.  The
//! latch is deliberately distinct from the task's own state: "the task is
//! stopped" and "cleanup has run" are two different resources.

use vstd::prelude::*;

use crate::task::AbortOutcome;
use crate::task::StartOutcome;
use crate::task::TaskEvent;
use crate::task::TaskLifecycle;
use crate::task::TaskState;
use crate::task::step;

verus! {

/// The coordinator's overall phase.
///
/// `NotStarted` until the managed task is started, `Active` while it runs,
/// `ShuttingDown` once any termination trigger has fired, `Terminated` after
/// cleanup has completed (the process exits right after).
#[derive(Clone, Copy, Debug, PartialEq, Eq, Structural)]
pub enum CoordinatorPhase {
    NotStarted,
    Active,
    ShuttingDown,
    Terminated,
}

/// What one shutdown call obliges its caller to do, in this order: first
/// perform the abort-and-join if `abort` says so, then run the cleanup
/// action if `run_cleanup` is set, then terminate the process.
#[derive(Clone, Copy, Debug, PartialEq, Eq, Structural)]
pub struct ShutdownDirective {
    /// Whether this caller performs the real cancellation-and-join of the
    /// managed task (at most one caller ever does).
    pub abort: AbortOutcome,
    /// Whether this caller runs the cleanup action.  The one-shot latch
    /// hands this out exactly once per coordinator.
    pub run_cleanup: bool,
}

/// The exit coordinator.  Created once at process start, after the task is
/// constructed and before any termination trigger is armed.
#[derive(Clone, Copy, Debug, PartialEq, Eq, Structural)]
pub struct ExitCoordinator {
    pub phase: CoordinatorPhase,
    /// The lifecycle of the single managed task.
    pub task: TaskLifecycle,
    /// The one-shot cleanup latch: set by the first shutdown call and never
    /// cleared, so the cleanup action runs at most once per process.
    pub cleanup_claimed: bool,
}

/// What one shutdown call does: the task is driven out of `Running` first,
/// then the latch is checked-and-set, so cleanup is only ever handed to a
/// caller once the task has fully stopped.
pub open spec fn spec_shutdown(c: ExitCoordinator) -> (ExitCoordinator, ShutdownDirective) {
    let after = ExitCoordinator {
        phase: if c.phase is Terminated {
            CoordinatorPhase::Terminated
        } else {
            CoordinatorPhase::ShuttingDown
        },
        task: TaskLifecycle { state: step(c.task.state, TaskEvent::Abort) },
        cleanup_claimed: true,
    };
    let directive = ShutdownDirective {
        abort: if c.task.state is Running {
            AbortOutcome::Aborted
        } else {
            AbortOutcome::Ignored
        },
        run_cleanup: !c.cleanup_claimed,
    };
    (after, directive)
}

/// How many of `n` consecutive shutdown calls are told to run cleanup.
pub open spec fn cleanup_runs(c: ExitCoordinator, n: nat) -> int
    decreases n,
{
    if n == 0 {
        0
    } else {
        (if spec_shutdown(c).1.run_cleanup {
            1int
        } else {
            0int
        }) + cleanup_runs(spec_shutdown(c).0, (n - 1) as nat)
    }
}

proof fn lemma_no_cleanup_after_claim(c: ExitCoordinator, n: nat)
    requires
        c.cleanup_claimed,
    ensures
        cleanup_runs(c, n) == 0,
    decreases n,
{
    if n > 0 {
        lemma_no_cleanup_after_claim(spec_shutdown(c).0, (n - 1) as nat);
    }
}

/// Calling the shutdown path N times (N >= 1) on a freshly registered
/// coordinator results in the cleanup action being handed out exactly once.
pub proof fn lemma_shutdown_idempotent(c: ExitCoordinator, n: nat)
    requires
        !c.cleanup_claimed,
        n >= 1,
    ensures
        cleanup_runs(c, n) == 1,
{
    lemma_no_cleanup_after_claim(spec_shutdown(c).0, (n - 1) as nat);
}

/// A shutdown call hands out the cleanup action only with the task already
/// out of `Running`: cleanup never races a still-active renewal cycle.
pub proof fn lemma_cleanup_after_stop(c: ExitCoordinator)
    ensures
        spec_shutdown(c).0.task.state !is Running,
        spec_shutdown(c).1.run_cleanup ==> spec_shutdown(c).0.task.state !is Running,
{
}

impl ExitCoordinator {
    /// Registration: take ownership of the managed task's lifecycle (the
    /// cleanup action itself stays with the process, which runs it when a
    /// shutdown directive says so).  The latch starts clear.
    pub fn register(task: TaskLifecycle) -> (c: ExitCoordinator)
        ensures
            c.phase is NotStarted,
            c.task == task,
            !c.cleanup_claimed,
    {
        ExitCoordinator { phase: CoordinatorPhase::NotStarted, task, cleanup_claimed: false }
    }

    /// Start the managed task.  The spawn happens only from a coordinator
    /// that has not yet started or begun shutting down and a task that is
    /// still `Idle`, so a stale start after a shutdown is impossible.
    pub fn start_task(&mut self) -> (o: StartOutcome)
        ensures
            o is Spawned <==> (old(self).phase is NotStarted && old(self).task.state is Idle),
            o is Spawned ==> final(self).task.state is Running
                && final(self).phase is Active,
            o is Ignored ==> *final(self) == *old(self),
            final(self).cleanup_claimed == old(self).cleanup_claimed,
    {
        match self.phase {
            CoordinatorPhase::NotStarted => {
                let o = self.task.on_start();
                match o {
                    StartOutcome::Spawned => {
                        self.phase = CoordinatorPhase::Active;
                    },
                    StartOutcome::Ignored => {},
                }
                o
            },
            _ => StartOutcome::Ignored,
        }
    }

    /// The abort-and-join decision alone, without touching the cleanup
    /// latch: the managed task's own idempotent abort entry, safe to call
    /// from any trigger before the shutdown path claims cleanup.  A later
    /// shutdown call then finds the task already stopped and its abort
    /// directive is a no-op.
    pub fn abort_task(&mut self) -> (o: AbortOutcome)
        ensures
            final(self).task.state == step(old(self).task.state, TaskEvent::Abort),
            o is Aborted <==> old(self).task.state is Running,
            final(self).task.state !is Running,
            final(self).cleanup_claimed == old(self).cleanup_claimed,
            final(self).phase == old(self).phase,
    {
        self.task.on_abort()
    }

    /// The sole shutdown entry point, callable redundantly from every
    /// termination trigger.  The abort-and-join obligation comes first and
    /// the cleanup obligation second, so any caller told to run cleanup
    /// observes the task fully stopped; the one-shot latch makes sure that
    /// exactly the first caller is told to run cleanup.
    pub fn shutdown(&mut self) -> (d: ShutdownDirective)
        ensures
            (*final(self), d) == spec_shutdown(*old(self)),
            final(self).task.state !is Running,
            d.abort is Aborted <==> old(self).task.state is Running,
            d.run_cleanup <==> !old(self).cleanup_claimed,
            final(self).cleanup_claimed,
    {
        let abort = self.task.on_abort();
        let run_cleanup = !self.cleanup_claimed;
        self.cleanup_claimed = true;
        match self.phase {
            CoordinatorPhase::Terminated => {},
            _ => {
                self.phase = CoordinatorPhase::ShuttingDown;
            },
        }
        ShutdownDirective { abort, run_cleanup }
    }

    /// Record that the cleanup pass has completed; the process exits right
    /// after.  Only a coordinator whose latch was claimed can terminate.
    pub fn mark_terminated(&mut self)
        requires
            old(self).cleanup_claimed,
        ensures
            final(self).phase is Terminated,
            final(self).task == old(self).task,
            final(self).cleanup_claimed,
    {
        self.phase = CoordinatorPhase::Terminated;
    }
}

} // verus!

//! Termination signals: every platform-specific way the process can be asked
//! to stop, presented as one uniform trigger.
//!
//! Each variant — interactive interrupt, terminate request, console or
//! window close, unrecoverable-fault hook — drives the identical shutdown
//! path with the identical argument; no variant gets cleanup of its own.
//! The fault hook may fire on a context where no cooperative scheduler can
//! be re-entered, so the choice between the ambient scheduler and a freshly
//! built private one is made explicit here as well.

use vstd::prelude::*;

use crate::coordinator::ExitCoordinator;
use crate::coordinator::ShutdownDirective;
use crate::coordinator::spec_shutdown;

verus! {

/// A platform-delivered request that the process stop.
#[derive(Clone, Copy, Debug, PartialEq, Eq, Structural)]
pub enum TerminationSignal {
    /// An interactive interrupt (control-C).
    Interrupt,
    /// A terminate request from the operating system.
    Terminate,
    /// The console or window hosting the process is closing.
    ConsoleClose,
    /// The unrecoverable-fault hook fired.
    Fault,
}

/// What dispatching a signal does: exactly what one shutdown call does,
/// whatever the variant.
pub open spec fn spec_dispatch(signal: TerminationSignal, c: ExitCoordinator) -> (
    ExitCoordinator,
    ShutdownDirective,
) {
    spec_shutdown(c)
}

/// Route a termination signal into the coordinator's single shutdown entry
/// point.  The contract does not depend on the variant: every source fires
/// the same trigger.
pub fn dispatch_signal(signal: TerminationSignal, coordinator: &mut ExitCoordinator) -> (d:
    ShutdownDirective)
    ensures
        (*final(coordinator), d) == spec_dispatch(signal, *old(coordinator)),
        final(coordinator).task.state !is Running,
        d.run_cleanup <==> !old(coordinator).cleanup_claimed,
        final(coordinator).cleanup_claimed,
{
    match signal {
        TerminationSignal::Interrupt => coordinator.shutdown(),
        TerminationSignal::Terminate => coordinator.shutdown(),
        TerminationSignal::ConsoleClose => coordinator.shutdown(),
        TerminationSignal::Fault => coordinator.shutdown(),
    }
}

/// Two signals arriving in either order, of any variants, drive the
/// coordinator identically: the shutdown path has no variant-specific
/// behavior.
pub proof fn lemma_dispatch_uniform(
    a: TerminationSignal,
    b: TerminationSignal,
    c: ExitCoordinator,
)
    ensures
        spec_dispatch(a, c) == spec_dispatch(b, c),
{
}

/// How an abort-and-join drives the joined task to completion.
#[derive(Clone, Copy, Debug, PartialEq, Eq, Structural)]
pub enum JoinContext {
    /// A cooperative scheduler is already active on this context: block on
    /// it.
    AmbientScheduler,
    /// No scheduler can be entered from this context (the fault hook, an
    /// operating-system callback): build a minimal private one and block on
    /// that.
    PrivateScheduler,
}

/// Decide how to drive the join to completion.  The shutdown path must work
/// whether or not a scheduler is already active, so the ambient one is used
/// exactly when it is present and a throwaway one otherwise.
pub fn choose_join_context(ambient_scheduler_present: bool) -> (j: JoinContext)
    ensures
        j is AmbientScheduler <==> ambient_scheduler_present,
{
    if ambient_scheduler_present {
        JoinContext::AmbientScheduler
    } else {
        JoinContext::PrivateScheduler
    }
}

} // verus!

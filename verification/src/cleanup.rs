//! The cleanup pass: releasing both protocol mappings, best-effort.
//!
//! Cleanup runs on the shutdown path, after the renewal task has fully
//! stopped.  Unlike acquisition, a failed release is logged and never
//! fatal: the second protocol's release is attempted regardless of the
//! first's outcome, and the process still exits gracefully, because the
//! shutdown intent succeeded even if the remote side did not cooperate.

use vstd::prelude::*;

use crate::renewal::Protocol;

verus! {

/// The protocols whose mappings the cleanup pass releases, in order: every
/// listed protocol is attempted, whatever happened to the ones before it.
pub fn release_order() -> (protocols: Vec<Protocol>)
    ensures
        protocols@.len() == 2,
        protocols@[0] is Tcp,
        protocols@[1] is Udp,
{
    let mut protocols: Vec<Protocol> = Vec::new();
    protocols.push(Protocol::Tcp);
    protocols.push(Protocol::Udp);
    protocols
}

/// How one protocol's release attempt is reported.
#[derive(Clone, Copy, Debug, PartialEq, Eq, Structural)]
pub enum ReleaseReport {
    /// The mapping was removed.
    Removed,
    /// The remote side refused or failed; logged, not fatal.
    ReleaseFailed,
}

/// The outcome of the whole cleanup pass.
#[derive(Clone, Copy, Debug, PartialEq, Eq, Structural)]
pub struct CleanupOutcome {
    pub tcp: ReleaseReport,
    pub udp: ReleaseReport,
    /// The status the process exits with after cleanup.
    pub exit_code: i32,
}

/// Judge the cleanup pass, given whether each protocol's release succeeded.
/// Each protocol is reported on its own, and the exit status is graceful
/// whatever the releases returned.
pub fn judge_cleanup(tcp_released: bool, udp_released: bool) -> (outcome: CleanupOutcome)
    ensures
        outcome.tcp is Removed <==> tcp_released,
        outcome.udp is Removed <==> udp_released,
        outcome.exit_code == 0,
{
    CleanupOutcome {
        tcp: if tcp_released {
            ReleaseReport::Removed
        } else {
            ReleaseReport::ReleaseFailed
        },
        udp: if udp_released {
            ReleaseReport::Removed
        } else {
            ReleaseReport::ReleaseFailed
        },
        exit_code: 0,
    }
}

} // verus!

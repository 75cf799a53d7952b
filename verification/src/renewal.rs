//! The lease renewal loop's decisions: what each iteration must attempt,
//! how its outcome is reported, and when a failure is fatal.
//!
//! The loop itself is the long-running work handed to the cancelable task;
//! the process performs the two mapping acquisitions and the inter-iteration
//! sleep, and feeds the results back in here.  A failed acquisition is
//! treated as fatal rather than retried: an unrenewable mapping left
//! silently stale is worse than a loud crash.

use vstd::prelude::*;

verus! {

/// How long each acquired mapping is leased for, in seconds.
pub const LEASE_SECONDS: u32 = 3600;

/// How long the loop sleeps between renewals, in seconds.  Strictly shorter
/// than the lease, so a renewal always lands before the lease expires.
pub const RENEWAL_INTERVAL_SECONDS: u32 = 3000;

/// The renewal interval is strictly shorter than the lease duration: the
/// loop never leaves a gap in which the mapping could lapse.
pub proof fn lemma_renewal_precedes_expiry()
    ensures
        RENEWAL_INTERVAL_SECONDS < LEASE_SECONDS,
{
}

/// The transport protocols whose mappings are kept alive.  Every iteration
/// acquires one mapping per protocol, and cleanup releases one per protocol.
#[derive(Clone, Copy, Debug, PartialEq, Eq, Structural)]
pub enum Protocol {
    Tcp,
    Udp,
}

/// The label under which a protocol's mapping is registered with the
/// gateway.
pub fn mapping_label(protocol: Protocol) -> (s: &'static str)
    ensures
        protocol is Tcp ==> s@ == "Rust UPnP Port Forwarder - TCP"@,
        protocol is Udp ==> s@ == "Rust UPnP Port Forwarder - UDP"@,
{
    match protocol {
        Protocol::Tcp => "Rust UPnP Port Forwarder - TCP",
        Protocol::Udp => "Rust UPnP Port Forwarder - UDP",
    }
}

/// How a successful acquisition is reported.  First iteration and renewal
/// differ only in this phrasing, never in logic.
#[derive(Clone, Copy, Debug, PartialEq, Eq, Structural)]
pub enum ReportKind {
    /// First iteration: the mapping has just become active.
    Active,
    /// Any later iteration: the mapping was renewed.
    Renewed,
}

/// What the loop does after an iteration's two acquisition attempts.
#[derive(Clone, Copy, Debug, PartialEq, Eq, Structural)]
pub enum IterationVerdict {
    /// Both mappings were acquired: sleep for the renewal interval, then
    /// run the next iteration.
    SleepThenRepeat,
    /// An acquisition failed: terminate the process with a non-zero status,
    /// attempting no further iteration.
    FatalExit,
}

/// The loop's own state: whether the coming iteration is the first, and
/// whether a fatal failure has already ended the loop.
#[derive(Clone, Copy, Debug, PartialEq, Eq, Structural)]
pub struct RenewalLoop {
    pub first_iteration: bool,
    pub halted: bool,
}

impl RenewalLoop {
    /// A fresh loop: about to run its first iteration.
    pub fn new() -> (l: RenewalLoop)
        ensures
            l.first_iteration,
            !l.halted,
    {
        RenewalLoop { first_iteration: true, halted: false }
    }

    /// How this iteration's successes are to be phrased.
    pub fn report_kind(&self) -> (k: ReportKind)
        ensures
            k is Active <==> self.first_iteration,
    {
        if self.first_iteration {
            ReportKind::Active
        } else {
            ReportKind::Renewed
        }
    }

    /// Judge one iteration, given whether each protocol's acquisition
    /// succeeded.  Both protocols are attempted every iteration, each
    /// reported on its own; the iteration as a whole succeeds only if both
    /// did, and any failure halts the loop for good.  A halted loop is
    /// never stepped again: the process has already exited.
    pub fn step(&mut self, tcp_acquired: bool, udp_acquired: bool) -> (v: IterationVerdict)
        requires
            !old(self).halted,
        ensures
            v is SleepThenRepeat <==> (tcp_acquired && udp_acquired),
            final(self).halted <==> v is FatalExit,
            v is SleepThenRepeat ==> !final(self).first_iteration,
            v is FatalExit ==> final(self).first_iteration == old(self).first_iteration,
    {
        if tcp_acquired && udp_acquired {
            self.first_iteration = false;
            IterationVerdict::SleepThenRepeat
        } else {
            self.halted = true;
            IterationVerdict::FatalExit
        }
    }
}

/// The status with which the process exits after a fatal acquisition
/// failure: always non-zero.
pub fn fatal_exit_code() -> (code: i32)
    ensures
        code != 0,
{
    1
}

} // verus!

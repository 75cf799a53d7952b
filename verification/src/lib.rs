//! Lifecycle coordination for a leased network-address mapping.
//!
//! The crate keeps a UPnP-style port mapping alive for the lifetime of a
//! process and guarantees that the mapping is torn down exactly once, no
//! matter which termination trigger fires first or how many fire at once.
//! The verified core is the coordination logic itself: a start-once /
//! abort-once task lifecycle, an exit coordinator with a one-shot cleanup
//! latch, the per-iteration decisions of the lease renewal loop, and the
//! judgment of the best-effort release pass.  The surrounding process
//! performs the actual network calls, sleeps and signal handling, and feeds
//! their outcomes into these functions as plain values.

pub mod cleanup;
pub mod config;
pub mod coordinator;
pub mod renewal;
pub mod signals;
pub mod task;

//! The configuration the process starts from: a device port that must be
//! set, and a router port that defaults to the device port when left zero.
//!
//! Reading, parsing and writing the configuration file are plain I/O and
//! stay with the process; the decisions — whether the file's contents are
//! usable, what to do when they are not, and what the effective ports are —
//! are made here.

use vstd::prelude::*;

verus! {

/// The two ports the forwarder works with.  `device_port` is mandatory and
/// must be non-zero; `router_port` set to zero means "same as the device
/// port".
#[derive(Clone, Copy, Debug, PartialEq, Eq, Structural)]
pub struct Config {
    pub device_port: u16,
    pub router_port: u16,
}

impl Default for Config {
    /// The template written out for the operator to fill in: both ports
    /// zero, which is deliberately incomplete.
    fn default() -> (c: Config)
        ensures
            c.device_port == 0,
            c.router_port == 0,
    {
        Config { device_port: 0, router_port: 0 }
    }
}

/// A configuration is complete exactly when the mandatory device port has
/// been set to a non-zero value.
pub fn is_config_complete(config: &Config) -> (complete: bool)
    ensures
        complete == (config.device_port != 0),
{
    config.device_port != 0
}

/// The ports actually used: a zero router port falls back to the device
/// port, any other value stands as written.
pub open spec fn spec_effective(c: Config) -> Config {
    Config {
        device_port: c.device_port,
        router_port: if c.router_port == 0 {
            c.device_port
        } else {
            c.router_port
        },
    }
}

/// Resolve the router-port default.
pub fn effective_config(config: Config) -> (c: Config)
    ensures
        c == spec_effective(config),
        c.device_port == config.device_port,
        config.router_port == 0 ==> c.router_port == config.device_port,
        config.router_port != 0 ==> c.router_port == config.router_port,
{
    Config {
        device_port: config.device_port,
        router_port: if config.router_port == 0 {
            config.device_port
        } else {
            config.router_port
        },
    }
}

/// What loading the configuration decides, given what the file system
/// showed.  Only the `Ready` plan lets the process continue.
#[derive(Clone, Copy, Debug, PartialEq, Eq, Structural)]
pub enum LoadPlan {
    /// No file was found: write a fresh template, ask the operator to fill
    /// it in, and exit gracefully.
    CreateTemplateAndExit,
    /// The file exists but is incomplete (or failed to parse and fell back
    /// to the template): write the carried value back with its guidance
    /// comments, ask the operator to fill it in, and exit gracefully.
    RewriteAndExit(Config),
    /// The file held a complete configuration: continue with the carried
    /// effective ports.
    Ready(Config),
}

/// Decide what to do with what was read from the configuration file.
/// `parsed` is the file's parsed contents, the incomplete template standing
/// in where the file could not be parsed; it is ignored when the file does
/// not exist.
pub fn plan_config_load(file_exists: bool, parsed: Config) -> (plan: LoadPlan)
    ensures
        !file_exists ==> plan is CreateTemplateAndExit,
        file_exists && parsed.device_port == 0 ==> plan == LoadPlan::RewriteAndExit(parsed),
        file_exists && parsed.device_port != 0 ==> plan == LoadPlan::Ready(
            spec_effective(parsed),
        ),
{
    if !file_exists {
        LoadPlan::CreateTemplateAndExit
    } else if !is_config_complete(&parsed) {
        LoadPlan::RewriteAndExit(parsed)
    } else {
        LoadPlan::Ready(effective_config(parsed))
    }
}

} // verus!

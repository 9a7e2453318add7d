//! Configuration data: the global settings and the per-host entries, all
//! read-only after startup. Duplication helpers return values that are equal
//! to their sources, so contracts over copies stay exact.

use vstd::prelude::*;

verus! {

/// Per-host connection and layout settings.
#[derive(Debug)]
pub struct HostConfig {
    /// Namespacing path segment under the destination root.
    pub identifier: String,
    /// Destination root path for this host's backups.
    pub destination: String,
    /// Optional cron expression; a missing or malformed one falls back to a
    /// daily default.
    pub cron_schedule: Option<String>,
}

/// One remote host to back up.
#[derive(Debug)]
pub struct Host {
    pub hostname: String,
    pub config: HostConfig,
}

/// Global, host-independent settings.
#[derive(Debug)]
pub struct GlobalConfig {
    /// Path of the per-host settings list.
    pub hosts: String,
    /// Path of the log sink.
    pub log: String,
}

/// The set of hosts known at startup.
#[derive(Debug)]
pub struct Settings {
    pub hosts: Vec<Host>,
}

fn duplicate_opt_string(o: &Option<String>) -> (r: Option<String>)
    ensures
        r == *o,
{
    match o {
        Some(s) => Some(s.clone()),
        None => None,
    }
}

/// Copies a host; the copy is equal to the source.
pub fn duplicate_host(h: &Host) -> (r: Host)
    ensures
        r == *h,
{
    Host {
        hostname: h.hostname.clone(),
        config: HostConfig {
            identifier: h.config.identifier.clone(),
            destination: h.config.destination.clone(),
            cron_schedule: duplicate_opt_string(&h.config.cron_schedule),
        },
    }
}

/// Copies the global configuration; the copy is equal to the source.
pub fn duplicate_global_config(g: &GlobalConfig) -> (r: GlobalConfig)
    ensures
        r == *g,
{
    GlobalConfig { hosts: g.hosts.clone(), log: g.log.clone() }
}

} // verus!

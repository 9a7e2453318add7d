//! Error taxonomy: every failure is reported through `Trap`, never by
//! aborting the process.

use vstd::prelude::*;

verus! {

/// The kinds of failure the orchestrator reports: local file-system trouble,
/// malformed input such as a cron expression, an absent configuration value
/// that a default can stand in for, and a failure of the scheduling or
/// execution loops themselves.
#[derive(Debug, Clone)]
pub enum Trap {
    FS(String),
    InvalidInput(String),
    Missing(String),
    Scheduler(String),
}

impl Trap {
    /// The name of the error's kind, for structured log lines.
    pub fn kind_name(&self) -> (r: &'static str)
        ensures
            (match self {
                Trap::FS(_) => r@ == "FS"@,
                Trap::InvalidInput(_) => r@ == "InvalidInput"@,
                Trap::Missing(_) => r@ == "Missing"@,
                Trap::Scheduler(_) => r@ == "Scheduler"@,
            }),
    {
        match self {
            Trap::FS(_) => "FS",
            Trap::InvalidInput(_) => "InvalidInput",
            Trap::Missing(_) => "Missing",
            Trap::Scheduler(_) => "Scheduler",
        }
    }

    /// The human-readable message the error carries.
    pub fn message(&self) -> (r: &String)
        ensures
            (match self {
                Trap::FS(m) => r == m,
                Trap::InvalidInput(m) => r == m,
                Trap::Missing(m) => r == m,
                Trap::Scheduler(m) => r == m,
            }),
    {
        match self {
            Trap::FS(m) => m,
            Trap::InvalidInput(m) => m,
            Trap::Missing(m) => m,
            Trap::Scheduler(m) => m,
        }
    }
}

} // verus!

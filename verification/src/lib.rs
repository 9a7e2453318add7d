//! Incremental backup orchestration: cron-driven scheduling, a FIFO task
//! queue, an executor with per-host mutual exclusion, and a change-detection
//! engine that samples fixed-size content windows instead of hashing whole
//! files.

pub mod clock;
pub mod config;
pub mod engine;
pub mod errors;
pub mod executor;
pub mod hash;
pub mod queue;
pub mod record;
pub mod scheduler;
pub mod task;

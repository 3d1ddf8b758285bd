//! The coordinator's decision: what to spawn for a validated configuration.

use vstd::prelude::*;

use crate::config::Config;

verus! {

/// What the run spawns: the worker tasks and, optionally, one reporter.
pub struct RunPlan {
    /// Number of worker tasks to spawn.
    pub workers: usize,
    /// Spawn the stats reporter.
    pub reporter: bool,
}

/// Decides what a validated configuration spawns: exactly `threads` worker
/// tasks, and one reporter exactly when a non-zero reporting interval is
/// configured. Only a validated configuration reaches this point, so no
/// worker is ever planned for a rejected input.
pub fn plan(cfg: &Config) -> (p: RunPlan)
    ensures
        p.workers == cfg.threads,
        p.reporter == (cfg.stat_secs > 0),
        cfg.wf() ==> p.workers >= 1,
{
    RunPlan { workers: cfg.threads, reporter: cfg.stat_secs > 0 }
}

} // verus!

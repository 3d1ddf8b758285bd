//! The reporter's logic: when to report or stop, and the throughput value.

use vstd::prelude::*;

verus! {

/// How long the reporter sleeps between checks of the stop flag, in
/// milliseconds.
pub const POLL_MILLIS: u64 = 50;

/// What the reporter does next on waking.
#[derive(Clone, Copy, Debug, PartialEq, Eq, Structural)]
pub enum ReporterStep {
    /// The stop flag is set: terminate without reporting.
    Stop,
    /// The interval has elapsed: report and start a new interval.
    Report,
    /// Keep polling.
    Wait,
}

/// The reporter's next action: stop takes precedence, then a report once
/// the waited time reaches the configured interval, else keep waiting.
pub open spec fn spec_reporter_step(
    stop_set: bool,
    waited_millis: u64,
    interval_secs: u64,
) -> ReporterStep {
    if stop_set {
        ReporterStep::Stop
    } else if waited_millis >= interval_secs * 1000 {
        ReporterStep::Report
    } else {
        ReporterStep::Wait
    }
}

/// Decides the reporter's next action from the stop flag and the time
/// waited so far in the current interval.
pub fn reporter_step(stop_set: bool, waited_millis: u64, interval_secs: u64) -> (s: ReporterStep)
    ensures
        s == spec_reporter_step(stop_set, waited_millis, interval_secs),
{
    if stop_set {
        ReporterStep::Stop
    } else if waited_millis as u128 >= interval_secs as u128 * 1000 {
        ReporterStep::Report
    } else {
        ReporterStep::Wait
    }
}

/// The reported throughput: operations per second, as the drained count
/// over the elapsed wall-clock time in microseconds, rounded down.
pub fn ops_per_second(count: u64, elapsed_micros: u64) -> (r: u128)
    requires
        1 <= elapsed_micros,
    ensures
        r == count as nat * 1_000_000 / elapsed_micros as nat,
{
    count as u128 * 1_000_000 / (elapsed_micros as u128)
}

} // verus!

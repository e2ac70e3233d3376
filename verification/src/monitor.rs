//! The health monitor of one server.
//!
//! The monitor sleeps, looks whether it should stop, probes the server, and
//! sleeps again. One failed probe ends it: the server's entry is to be
//! removed and its client cancelled, and the restart engine takes over.

use vstd::prelude::*;

verus! {

/// Milliseconds between two probes.
pub const HEALTH_CHECK_INTERVAL_MS: u64 = 5000;

/// Milliseconds one probe may take.
pub const HEALTH_PROBE_TIMEOUT_MS: u64 = 2000;

/// How a probe failed.
#[derive(Debug, Clone, Copy, PartialEq, Eq, Structural)]
pub enum ProbeFailure {
    /// No answer within the probe's timeout.
    Timeout,
    /// The transport to the server broke.
    Transport,
    /// The server answered with an error.
    Service,
}

/// What one probe found.
#[derive(Debug, Clone, Copy, PartialEq, Eq, Structural)]
pub enum ProbeResult {
    /// The server listed its tools in time.
    Healthy,
    /// The probe failed.
    Failed(ProbeFailure),
}

/// Why the monitor of a server ended.
#[derive(Debug, Clone, Copy, PartialEq, Eq, Structural)]
pub enum QuitReason {
    /// The server was stopped on purpose: its entry was removed by someone
    /// else, or the monitor was told to stop.
    Closed,
    /// A probe failed: the server ended unexpectedly.
    Unhealthy(ProbeFailure),
}

/// What the monitor asks its runner to do next.
#[derive(Debug, Clone, Copy, PartialEq, Eq, Structural)]
pub enum MonitorAction {
    /// Sleep for the given milliseconds, then report what is found: the
    /// shutdown flag and whether the server still has an entry.
    Sleep { millis: u64 },
    /// List the server's tools, giving up after the given milliseconds.
    Probe { timeout_millis: u64 },
    /// Remove the server's entry and cancel its client, ignoring errors; the
    /// monitor has ended with the given reason.
    RemoveAndCancel { reason: QuitReason },
    /// The monitor has ended with the given reason; nothing is left to do.
    Quit { reason: QuitReason },
}

/// The first action of a monitor: sleep for one interval.
pub open spec fn monitor_first_action() -> MonitorAction {
    MonitorAction::Sleep { millis: HEALTH_CHECK_INTERVAL_MS }
}

/// What follows a sleep.
pub open spec fn after_sleep_spec(shutdown_requested: bool, entry_present: bool) -> MonitorAction {
    if shutdown_requested || !entry_present {
        MonitorAction::Quit { reason: QuitReason::Closed }
    } else {
        MonitorAction::Probe { timeout_millis: HEALTH_PROBE_TIMEOUT_MS }
    }
}

/// What follows a probe.
pub open spec fn after_probe_spec(result: ProbeResult) -> MonitorAction {
    match result {
        ProbeResult::Healthy => MonitorAction::Sleep { millis: HEALTH_CHECK_INTERVAL_MS },
        ProbeResult::Failed(failure) => MonitorAction::RemoveAndCancel {
            reason: QuitReason::Unhealthy(failure),
        },
    }
}

/// The first action of a monitor.
pub fn monitor_start() -> (action: MonitorAction)
    ensures
        action == monitor_first_action(),
{
    MonitorAction::Sleep { millis: HEALTH_CHECK_INTERVAL_MS }
}

/// Decides what follows a sleep: the monitor quits as closed where it was told
/// to stop or the server has no entry any more, and probes otherwise.
pub fn after_sleep(shutdown_requested: bool, entry_present: bool) -> (action: MonitorAction)
    ensures
        action == after_sleep_spec(shutdown_requested, entry_present),
{
    if shutdown_requested || !entry_present {
        MonitorAction::Quit { reason: QuitReason::Closed }
    } else {
        MonitorAction::Probe { timeout_millis: HEALTH_PROBE_TIMEOUT_MS }
    }
}

/// Decides what follows a probe: a healthy server is probed again after the
/// next sleep, and a single failure ends the monitor.
pub fn after_probe(result: ProbeResult) -> (action: MonitorAction)
    ensures
        action == after_probe_spec(result),
{
    match result {
        ProbeResult::Healthy => MonitorAction::Sleep { millis: HEALTH_CHECK_INTERVAL_MS },
        ProbeResult::Failed(failure) => MonitorAction::RemoveAndCancel {
            reason: QuitReason::Unhealthy(failure),
        },
    }
}

/// Whether a quit reason stands for an unexpected end, after which the
/// restart engine tries again.
pub open spec fn is_unexpected(reason: QuitReason) -> bool {
    reason is Unhealthy
}

} // verus!

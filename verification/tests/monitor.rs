use mcp_supervisor::monitor::{
    after_probe, after_sleep, monitor_start, MonitorAction, ProbeFailure, ProbeResult, QuitReason,
    HEALTH_CHECK_INTERVAL_MS, HEALTH_PROBE_TIMEOUT_MS,
};

#[test]
fn the_monitor_sleeps_five_seconds_and_probes_for_two() {
    assert_eq!(HEALTH_CHECK_INTERVAL_MS, 5000);
    assert_eq!(HEALTH_PROBE_TIMEOUT_MS, 2000);
    assert_eq!(monitor_start(), MonitorAction::Sleep { millis: 5000 });
    assert_eq!(after_sleep(false, true), MonitorAction::Probe { timeout_millis: 2000 });
    assert_eq!(after_probe(ProbeResult::Healthy), MonitorAction::Sleep { millis: 5000 });
}

#[test]
fn a_stop_request_or_a_missing_entry_closes_the_monitor() {
    let closed = MonitorAction::Quit { reason: QuitReason::Closed };
    assert_eq!(after_sleep(true, true), closed);
    assert_eq!(after_sleep(true, false), closed);
    assert_eq!(after_sleep(false, false), closed);
}

#[test]
fn one_failed_probe_ends_the_monitor() {
    for failure in [ProbeFailure::Timeout, ProbeFailure::Transport, ProbeFailure::Service] {
        assert_eq!(
            after_probe(ProbeResult::Failed(failure)),
            MonitorAction::RemoveAndCancel { reason: QuitReason::Unhealthy(failure) }
        );
    }
}

use mcp_supervisor::health::{HealthAction, HealthEvent, HealthMonitor, HealthPhase};
use mcp_supervisor::launch::TransportKind;
use mcp_supervisor::monitor::{ProbeFailure, ProbeResult, QuitReason};
use mcp_supervisor::settings::McpSettings;
use mcp_supervisor::supervisor::Supervisor;

fn live() -> Supervisor<&'static str> {
    let mut sup: Supervisor<&'static str> = Supervisor::new(McpSettings::default());
    sup.register("fs", "client", TransportKind::Stdio, Some(5), None, 0);
    sup.confirm("fs");
    sup
}

#[test]
fn a_healthy_server_is_probed_again_and_again() {
    let mut sup = live();
    let (mut monitor, first) = HealthMonitor::start::<&'static str>("fs");
    assert_eq!(first, HealthAction::Sleep { millis: 5000 });
    for _ in 0..3 {
        assert_eq!(
            monitor.step(&mut sup, HealthEvent::Woke { shutdown_requested: false }),
            Some(HealthAction::Probe { timeout_millis: 2000 })
        );
        assert_eq!(
            monitor.step(&mut sup, HealthEvent::Probed { result: ProbeResult::Healthy }),
            Some(HealthAction::Sleep { millis: 5000 })
        );
    }
    assert!(sup.is_running("fs"));
    assert_eq!(monitor.phase, HealthPhase::AwaitWake);
}

#[test]
fn a_failed_probe_removes_the_server() {
    for failure in [ProbeFailure::Timeout, ProbeFailure::Transport, ProbeFailure::Service] {
        let mut sup = live();
        let (mut monitor, _) = HealthMonitor::start::<&'static str>("fs");
        monitor.step(&mut sup, HealthEvent::Woke { shutdown_requested: false });
        let action =
            monitor.step(&mut sup, HealthEvent::Probed { result: ProbeResult::Failed(failure) });
        match action {
            Some(HealthAction::Quit { reason, removed }) => {
                assert_eq!(reason, QuitReason::Unhealthy(failure));
                assert_eq!(removed.unwrap().client, "client");
            },
            other => panic!("unexpected action {other:?}"),
        }
        assert!(!sup.is_running("fs"));
        assert!(sup.restart_state("fs").ever_connected);
        assert_eq!(monitor.phase, HealthPhase::Finished);
        assert_eq!(monitor.step(&mut sup, HealthEvent::Woke { shutdown_requested: false }), None);
    }
}

#[test]
fn a_removed_server_or_a_stop_request_closes_the_monitor() {
    let closed = Some(HealthAction::Quit { reason: QuitReason::Closed, removed: None });
    let mut sup = live();
    let (mut monitor, _) = HealthMonitor::start::<&'static str>("fs");
    assert_eq!(monitor.step(&mut sup, HealthEvent::Woke { shutdown_requested: true }), closed);
    assert!(sup.is_running("fs"));

    let (mut monitor, _) = HealthMonitor::start::<&'static str>("fs");
    sup.remove("fs");
    assert_eq!(monitor.step(&mut sup, HealthEvent::Woke { shutdown_requested: false }), closed);

    let mut sup = live();
    let (mut monitor, _) = HealthMonitor::start::<&'static str>("fs");
    assert_eq!(
        monitor.step(&mut sup, HealthEvent::Probed { result: ProbeResult::Healthy }),
        None
    );
    assert!(sup.is_running("fs"));
}

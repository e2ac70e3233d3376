use mcp_supervisor::launch::TransportKind;
use mcp_supervisor::monitor::{ProbeFailure, QuitReason};
use mcp_supervisor::restart::{AttemptPlan, LoopDecision, RestartState, StopReason};
use mcp_supervisor::settings::McpSettings;
use mcp_supervisor::shutdown::{failed_servers, force_kill_list, CancelReport, ShutdownContext};
use mcp_supervisor::supervisor::{RunningEntry, Supervisor};
use serde_json::Value;

fn json(text: &str) -> Value {
    serde_json::from_str(text).unwrap()
}

fn supervisor() -> Supervisor<&'static str> {
    Supervisor::new(McpSettings::default())
}

#[test]
fn a_name_never_has_two_entries() {
    let mut sup = supervisor();
    assert_eq!(sup.register("fs", "client-1", TransportKind::Stdio, Some(10), None, 100), None);
    assert_eq!(sup.running_count(), 1);
    let displaced = sup.register("fs", "client-2", TransportKind::Stdio, Some(11), None, 200);
    assert_eq!(
        displaced,
        Some(RunningEntry {
            client: "client-1",
            kind: TransportKind::Stdio,
            started_at: 100,
            pid: Some(10),
            port: None,
            verified: false,
        })
    );
    assert_eq!(sup.running_count(), 1);
    assert_eq!(sup.entry("fs").unwrap().client, "client-2");
    sup.register("git", "client-3", TransportKind::Sse, None, None, 300);
    assert_eq!(sup.running_count(), 2);
    assert!(sup.remove("fs").is_some());
    assert!(sup.remove("fs").is_none());
    assert_eq!(sup.running_count(), 1);
    assert!(!sup.is_running("fs"));
    assert!(sup.is_running("git"));
}

#[test]
fn verification_marks_the_server_as_connected() {
    let mut sup = supervisor();
    sup.begin_start("fs", &json(r#"{"command":"echo","args":[]}"#));
    assert_eq!(sup.restart_state("fs"), RestartState { attempts: 0, ever_connected: false });
    assert!(!sup.confirm("fs"));
    assert!(!sup.restart_state("fs").ever_connected);
    sup.register("fs", "c", TransportKind::Stdio, None, None, 0);
    assert!(!sup.entry("fs").unwrap().verified);
    assert!(sup.confirm("fs"));
    assert!(sup.entry("fs").unwrap().verified);
    assert_eq!(sup.entry("fs").unwrap().client, "c");
    assert!(sup.restart_state("fs").ever_connected);
    sup.remove("fs");
    assert!(sup.restart_state("fs").ever_connected);
}

#[test]
fn the_restart_loop_runs_through_the_supervisor() {
    let mut sup = supervisor();
    sup.begin_start("fs", &json(r#"{"command":"echo","args":[]}"#));
    sup.mark_connected("fs");
    assert_eq!(sup.plan_restart("fs", 3), AttemptPlan::Launch { attempt: 1, delay_ms: 1000 });
    assert_eq!(sup.after_restart_launch("fs", false), LoopDecision::Retry);
    assert_eq!(sup.plan_restart("fs", 3), AttemptPlan::Launch { attempt: 2, delay_ms: 2000 });
    assert_eq!(sup.after_restart_launch("fs", true), LoopDecision::Monitor);
    assert_eq!(sup.restart_state("fs").attempts, 0);
    assert_eq!(
        sup.after_restart_monitor("fs", QuitReason::Unhealthy(ProbeFailure::Timeout)),
        LoopDecision::Retry
    );
    assert_eq!(
        sup.after_restart_monitor("fs", QuitReason::Closed),
        LoopDecision::Stop(StopReason::DeliberateStop)
    );
    let mut tight = supervisor();
    tight.set_settings(McpSettings {
        tool_call_timeout_seconds: 1,
        base_restart_delay_ms: 10,
        max_restart_delay_ms: 25,
        backoff_multiplier_permille: 3000,
    });
    assert_eq!(tight.settings().max_restart_delay_ms, 25);
    tight.mark_connected("x");
    assert_eq!(tight.plan_restart("x", 2), AttemptPlan::Launch { attempt: 1, delay_ms: 10 });
    assert_eq!(tight.plan_restart("x", 2), AttemptPlan::Launch { attempt: 2, delay_ms: 25 });
    assert_eq!(tight.plan_restart("x", 2), AttemptPlan::GiveUp { max_restarts: 2 });
}

#[test]
fn a_flapping_server_is_launched_once_and_not_announced() {
    let mut sup = supervisor();
    sup.begin_start("flap", &json(r#"{"command":"false","args":[]}"#));
    let mut launches: u32 = 0;
    let mut announced = false;
    loop {
        match sup.plan_restart("flap", 5) {
            AttemptPlan::GiveUp { .. } => {
                announced = true;
                break;
            },
            AttemptPlan::Launch { .. } => {
                launches += 1;
                match sup.after_restart_launch("flap", false) {
                    LoopDecision::Retry => continue,
                    _ => break,
                }
            },
        }
    }
    assert_eq!(launches, 1);
    assert!(!announced);
    assert_eq!(sup.restart_state("flap").attempts, 1);
}

#[test]
fn active_servers_can_be_listed_and_cleared() {
    let mut sup = supervisor();
    sup.begin_start("a", &json("1"));
    sup.begin_start("b", &json("2"));
    sup.begin_start("a", &json("3"));
    let mut active = sup.active_servers();
    active.sort_by(|x, y| x.0.cmp(&y.0));
    assert_eq!(active, vec![("a".to_string(), json("3")), ("b".to_string(), json("2"))]);
    sup.clear_active();
    assert!(sup.active_servers().is_empty());
}

#[test]
fn a_shutdown_is_not_entered_twice() {
    let mut sup = supervisor();
    assert!(sup.begin_shutdown());
    assert!(!sup.begin_shutdown());
    sup.end_shutdown();
    assert!(sup.begin_shutdown());
}

#[test]
fn graceful_then_forced_shutdown() {
    let mut sup = supervisor();
    for (name, pid) in [("quick", 100u32), ("stubborn", 200u32)] {
        sup.begin_start(name, &json(r#"{"command":"x","args":[]}"#));
        sup.record_pid(name, pid);
        sup.register(name, name, TransportKind::Stdio, Some(pid), None, 0);
        assert!(sup.confirm(name));
    }
    assert!(sup.begin_shutdown());
    let run = sup.drain_for_shutdown();
    assert_eq!(sup.running_count(), 0);
    assert_eq!(run.names, vec!["quick".to_string(), "stubborn".to_string()]);
    assert_eq!(run.targets.len(), 2);
    assert_eq!(run.targets[0].entry.client, "quick");
    assert_eq!(run.targets[1].port, None);
    assert_eq!(ShutdownContext::ManualRestart.overall_timeout().as_secs(), 5);
    let reports = vec![
        Some(CancelReport { name: "quick".to_string(), success: true }),
        Some(CancelReport { name: "stubborn".to_string(), success: false }),
    ];
    let failed = failed_servers(&run.names, Some(&reports));
    assert_eq!(failed, vec!["stubborn".to_string()]);
    assert_eq!(force_kill_list(&failed, &run.pids), vec![("stubborn".to_string(), 200)]);
    sup.forget_pids(&run.names);
    assert_eq!(sup.pid_of("quick"), None);
    assert_eq!(sup.pid_of("stubborn"), None);
    assert!(!sup.is_running("quick"));
    assert!(!sup.is_running("stubborn"));
    sup.end_shutdown();
    assert!(sup.begin_shutdown());
}

#[test]
fn the_bridge_server_is_drained_with_its_port() {
    let mut sup = supervisor();
    sup.begin_start(
        "Jan Browser MCP",
        &json(r#"{"command":"npx","args":[],"env":{"BRIDGE_PORT":"41700"}}"#),
    );
    sup.begin_start("fs", &json(r#"{"command":"npx","args":[],"env":{"BRIDGE_PORT":"41701"}}"#));
    sup.register("fs", "c1", TransportKind::Stdio, None, None, 0);
    sup.register("Jan Browser MCP", "c2", TransportKind::Stdio, Some(7), Some(41700), 0);
    sup.record_pid("other", 9);
    let run = sup.drain_for_shutdown();
    assert_eq!(run.targets[0].name, "fs");
    assert_eq!(run.targets[0].port, None);
    assert_eq!(run.targets[1].name, "Jan Browser MCP");
    assert_eq!(run.targets[1].port, Some(41700));
    assert_eq!(run.pids.get("other"), Some(&9));
    sup.forget_pids(&run.names);
    assert_eq!(sup.pid_of("other"), Some(9));
}

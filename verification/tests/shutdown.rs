use std::time::Duration;

use mcp_supervisor::shutdown::{
    after_cancel, failed_servers, force_kill_list, CancelFollowUp, CancelReport, ShutdownContext,
    FINAL_SETTLE_MS, LOCK_RELEASE_SETTLE_MS, MONITOR_ABORT_SETTLE_MS,
};
use mcp_supervisor::table::NameTable;

#[test]
fn timeouts_follow_the_context() {
    assert_eq!(ShutdownContext::AppExit.per_server_timeout(), Duration::from_millis(500));
    assert_eq!(ShutdownContext::AppExit.overall_timeout(), Duration::from_millis(1500));
    assert_eq!(ShutdownContext::ManualRestart.per_server_timeout(), Duration::from_secs(2));
    assert_eq!(ShutdownContext::ManualRestart.overall_timeout(), Duration::from_secs(5));
    assert_eq!(ShutdownContext::FactoryReset.per_server_timeout(), Duration::from_secs(5));
    assert_eq!(ShutdownContext::FactoryReset.overall_timeout(), Duration::from_secs(10));
}

#[test]
fn scheduled_waits_stay_within_the_bound() {
    assert_eq!(MONITOR_ABORT_SETTLE_MS, 50);
    assert_eq!(LOCK_RELEASE_SETTLE_MS, 100);
    assert_eq!(FINAL_SETTLE_MS, 200);
    for ctx in
        [ShutdownContext::AppExit, ShutdownContext::ManualRestart, ShutdownContext::FactoryReset]
    {
        let scheduled = Duration::from_millis(MONITOR_ABORT_SETTLE_MS + FINAL_SETTLE_MS)
            + ctx.overall_timeout();
        let bound = ctx.overall_timeout() + ctx.per_server_timeout() + Duration::from_millis(250);
        assert!(scheduled <= bound);
    }
}

#[test]
fn lock_file_is_deleted_after_every_cancel() {
    assert_eq!(
        after_cancel(Some(41700), true),
        CancelFollowUp { settle_ms: 100, delete_lock: Some(41700) }
    );
    assert_eq!(
        after_cancel(Some(41700), false),
        CancelFollowUp { settle_ms: 0, delete_lock: Some(41700) }
    );
    assert_eq!(after_cancel(None, true), CancelFollowUp { settle_ms: 0, delete_lock: None });
    assert_eq!(after_cancel(None, false), CancelFollowUp { settle_ms: 0, delete_lock: None });
}

fn report(name: &str, success: bool) -> Option<CancelReport> {
    Some(CancelReport { name: name.to_string(), success })
}

#[test]
fn failed_servers_are_those_whose_cancel_failed() {
    let names = vec!["a".to_string(), "b".to_string(), "c".to_string()];
    let reports = vec![report("a", true), report("b", false), None];
    assert_eq!(failed_servers(&names, Some(&reports)), vec!["b".to_string()]);
    let all_fine = vec![report("a", true), report("b", true), report("c", true)];
    assert!(failed_servers(&names, Some(&all_fine)).is_empty());
}

#[test]
fn overall_timeout_fails_every_server() {
    let names = vec!["a".to_string(), "b".to_string()];
    assert_eq!(failed_servers(&names, None), names);
}

#[test]
fn only_known_processes_are_reaped() {
    let mut pids: NameTable<u32> = NameTable::new();
    pids.insert("a".to_string(), 11);
    pids.insert("c".to_string(), 33);
    let failed = vec!["c".to_string(), "b".to_string(), "a".to_string()];
    assert_eq!(
        force_kill_list(&failed, &pids),
        vec![("c".to_string(), 33), ("a".to_string(), 11)]
    );
    assert!(force_kill_list(&Vec::new(), &pids).is_empty());
}

use mcp_supervisor::error::{McpError, SignalKind};
use mcp_supervisor::launch::TransportKind;
use mcp_supervisor::settings::McpSettings;
use mcp_supervisor::stop::{Shutdown, ShutdownAction, ShutdownEvent, ShutdownPhase};
use mcp_supervisor::supervisor::Supervisor;

fn fleet() -> Supervisor<&'static str> {
    let mut sup: Supervisor<&'static str> = Supervisor::new(McpSettings::default());
    let bridge: serde_json::Value =
        serde_json::from_str(r#"{"command":"x","args":[],"env":{"BRIDGE_PORT":"41700"}}"#)
            .unwrap();
    for (name, pid) in [("quick", 100u32), ("stubborn", 200), ("Jan Browser MCP", 300)] {
        sup.begin_start(name, &bridge);
        sup.record_pid(name, pid);
        sup.register(name, name, TransportKind::Stdio, Some(pid), None, 0);
        assert!(sup.confirm(name));
    }
    sup
}

#[test]
fn a_shutdown_walks_through_its_steps() {
    let mut sup = fleet();
    let (mut shutdown, first) =
        Shutdown::start::<&'static str>(&mut sup, ShutdownContext::ManualRestart).unwrap();
    assert_eq!(first, ShutdownAction::AbortMonitors);
    assert!(Shutdown::start::<&'static str>(&mut sup, ShutdownContext::AppExit).is_none());
    assert_eq!(
        shutdown.step(&mut sup, ShutdownEvent::MonitorsAborted),
        Some(ShutdownAction::Sleep { millis: 50 })
    );
    assert_eq!(sup.running_count(), 3);
    let cancel = shutdown.step(&mut sup, ShutdownEvent::Slept);
    let targets = match cancel {
        Some(ShutdownAction::CancelAll { targets, context }) => {
            assert_eq!(context, ShutdownContext::ManualRestart);
            targets
        },
        other => panic!("unexpected action {other:?}"),
    };
    assert_eq!(sup.running_count(), 0);
    let names: Vec<&str> = targets.iter().map(|t| t.name.as_str()).collect();
    assert_eq!(names, vec!["quick", "stubborn", "Jan Browser MCP"]);
    let ports: Vec<Option<u16>> = targets.iter().map(|t| t.port).collect();
    assert_eq!(ports, vec![None, None, Some(41700)]);
    assert_eq!(targets[1].entry.client, "stubborn");

    let reports = vec![
        report("quick", true),
        report("stubborn", false),
        report("Jan Browser MCP", false),
    ];
    assert_eq!(
        shutdown.step(&mut sup, ShutdownEvent::CancelsDone { reports: Some(reports) }),
        Some(ShutdownAction::Reap { name: "stubborn".to_string(), pid: 200 })
    );
    assert_eq!(shutdown.phase, ShutdownPhase::AwaitReap);
    let failure = McpError::SignalFailed {
        signal: SignalKind::Kill,
        pid: 200,
        reason: "EPERM".to_string(),
    };
    assert_eq!(
        shutdown.step(&mut sup, ShutdownEvent::Reaped { result: Err(failure) }),
        Some(ShutdownAction::Reap { name: "Jan Browser MCP".to_string(), pid: 300 })
    );
    assert_eq!(sup.pid_of("quick"), Some(100));
    assert_eq!(
        shutdown.step(&mut sup, ShutdownEvent::Reaped { result: Ok(()) }),
        Some(ShutdownAction::Sleep { millis: 200 })
    );
    assert_eq!(sup.pid_of("quick"), None);
    assert_eq!(sup.pid_of("stubborn"), None);
    assert_eq!(sup.pid_of("Jan Browser MCP"), None);
    assert!(Shutdown::start::<&'static str>(&mut sup, ShutdownContext::AppExit).is_none());
    assert_eq!(shutdown.step(&mut sup, ShutdownEvent::Slept), Some(ShutdownAction::Finish));
    assert!(shutdown.is_finished());
    assert_eq!(shutdown.step(&mut sup, ShutdownEvent::Slept), None);
    assert!(Shutdown::start::<&'static str>(&mut sup, ShutdownContext::AppExit).is_some());
}

#[test]
fn an_overall_timeout_reaps_every_known_process() {
    let mut sup = fleet();
    let (mut shutdown, _) =
        Shutdown::start::<&'static str>(&mut sup, ShutdownContext::AppExit).unwrap();
    shutdown.step(&mut sup, ShutdownEvent::MonitorsAborted);
    shutdown.step(&mut sup, ShutdownEvent::Slept);
    let mut reaped: Vec<(String, u32)> = Vec::new();
    let mut action = shutdown.step(&mut sup, ShutdownEvent::CancelsDone { reports: None });
    while let Some(ShutdownAction::Reap { name, pid }) = action {
        reaped.push((name, pid));
        action = shutdown.step(&mut sup, ShutdownEvent::Reaped { result: Ok(()) });
    }
    assert_eq!(
        reaped,
        vec![
            ("quick".to_string(), 100),
            ("stubborn".to_string(), 200),
            ("Jan Browser MCP".to_string(), 300),
        ]
    );
    assert_eq!(action, Some(ShutdownAction::Sleep { millis: 200 }));
}

#[test]
fn a_shutdown_without_servers_ends_after_the_first_pause() {
    let mut sup: Supervisor<&'static str> = Supervisor::new(McpSettings::default());
    let (mut shutdown, _) =
        Shutdown::start::<&'static str>(&mut sup, ShutdownContext::FactoryReset).unwrap();
    assert_eq!(shutdown.step(&mut sup, ShutdownEvent::Slept), None);
    assert_eq!(
        shutdown.step(&mut sup, ShutdownEvent::MonitorsAborted),
        Some(ShutdownAction::Sleep { millis: 50 })
    );
    assert_eq!(shutdown.step(&mut sup, ShutdownEvent::Slept), Some(ShutdownAction::Finish));
    assert!(sup.begin_shutdown());
}

#[test]
fn graceful_cancels_need_no_reaping() {
    let mut sup = fleet();
    let (mut shutdown, _) =
        Shutdown::start::<&'static str>(&mut sup, ShutdownContext::AppExit).unwrap();
    shutdown.step(&mut sup, ShutdownEvent::MonitorsAborted);
    shutdown.step(&mut sup, ShutdownEvent::Slept);
    let reports =
        vec![report("quick", true), report("stubborn", true), report("Jan Browser MCP", true)];
    assert_eq!(
        shutdown.step(&mut sup, ShutdownEvent::CancelsDone { reports: Some(reports) }),
        Some(ShutdownAction::Sleep { millis: 200 })
    );
    assert_eq!(shutdown.step(&mut sup, ShutdownEvent::Slept), Some(ShutdownAction::Finish));
}

use std::time::Duration;

use mcp_supervisor::boot::servers_to_start;
use mcp_supervisor::error::McpError;
use mcp_supervisor::launch::{BundledRuntimes, CommandPlan, TransportKind};
use mcp_supervisor::launcher::{
    launch, LaunchAction, LaunchEvent, LaunchPhase, LaunchSuccess, RemoteTarget,
    VERIFICATION_WINDOW_MS,
};
use mcp_supervisor::lockfile::{LockEntry, LockFileState, LockRegistry};
use mcp_supervisor::orphan::{HolderStatus, SweepAction, SweepEvent, Sweeper};
use mcp_supervisor::settings::McpSettings;
use mcp_supervisor::shutdown::ShutdownContext;
use mcp_supervisor::supervisor::Supervisor;
use serde_json::Value;

fn json(text: &str) -> Value {
    serde_json::from_str(text).unwrap()
}

fn runtimes() -> BundledRuntimes {
    BundledRuntimes {
        bun_path: "/opt/app/bun".to_string(),
        can_override_npx: false,
        npx_cache_dir: "/data/.npx".to_string(),
        uv_path: "/opt/app/uv".to_string(),
        can_override_uvx: false,
        uvx_cache_dir: "/data/.uvx".to_string(),
    }
}

type Client = &'static str;

fn finish(result: Result<LaunchSuccess, McpError>) -> Option<LaunchAction<Client>> {
    Some(LaunchAction::Finish { result, displaced: None })
}

#[test]
fn happy_path_stdio_start() {
    let text = r#"{"mcpServers":{"echo":{"command":"echo","args":["hi"],"active":true}}}"#;
    let servers = servers_to_start(text).unwrap();
    assert_eq!(servers.len(), 1);
    let (name, config) = &servers[0];
    let mut sup: Supervisor<Client> = Supervisor::new(McpSettings::default());
    sup.begin_start(name, config);
    let (mut launcher, first) = launch::<Client>(name, config, &runtimes()).unwrap();
    assert_eq!(launcher.kind, TransportKind::Stdio);
    assert_eq!(
        first,
        LaunchAction::Spawn {
            plan: CommandPlan {
                program: "echo".to_string(),
                args: vec!["hi".to_string()],
                envs: vec![],
                pipe_stderr: true,
                kill_on_drop: true,
                hide_console_window: true,
            },
        }
    );
    assert_eq!(
        launcher.step(&mut sup, LaunchEvent::Spawned { pid: Some(4321) }),
        Some(LaunchAction::ConnectChild)
    );
    assert_eq!(sup.pid_of("echo"), Some(4321));
    assert_eq!(VERIFICATION_WINDOW_MS, 500);
    assert_eq!(
        launcher.step(&mut sup, LaunchEvent::Connected { client: "client", now_ms: 1000 }),
        Some(LaunchAction::WaitWindow { millis: 500, displaced: None })
    );
    assert!(sup.is_running("echo"));
    assert!(!sup.restart_state("echo").ever_connected);
    assert_eq!(
        launcher.step(&mut sup, LaunchEvent::WindowPassed),
        finish(Ok(LaunchSuccess { write_lock: None, pid: Some(4321), emit_update: true }))
    );
    assert_eq!(launcher.phase, LaunchPhase::Finished);
    assert!(sup.is_running("echo"));
    assert!(sup.entry("echo").unwrap().verified);
    assert_eq!(sup.entry("echo").unwrap().started_at, 1000);
    assert_eq!(sup.restart_state("echo").attempts, 0);
    assert!(sup.restart_state("echo").ever_connected);
    assert_eq!(launcher.step(&mut sup, LaunchEvent::WindowPassed), None);

    assert!(sup.begin_shutdown());
    let run = sup.drain_for_shutdown();
    assert_eq!(run.names, vec!["echo".to_string()]);
    assert_eq!(sup.running_count(), 0);
    assert!(ShutdownContext::AppExit.overall_timeout() <= Duration::from_millis(1500));
    sup.forget_pids(&run.names);
    sup.end_shutdown();
    assert_eq!(sup.pid_of("echo"), None);
}

#[test]
fn a_server_that_quits_in_the_window_fails() {
    let config = json(r#"{"command":"false","args":[]}"#);
    let mut sup: Supervisor<Client> = Supervisor::new(McpSettings::default());
    sup.begin_start("flap", &config);
    let (mut launcher, _) = launch::<Client>("flap", &config, &runtimes()).unwrap();
    launcher.step(&mut sup, LaunchEvent::Spawned { pid: None });
    launcher.step(&mut sup, LaunchEvent::Connected { client: "c", now_ms: 0 });
    sup.remove("flap");
    assert_eq!(
        launcher.step(&mut sup, LaunchEvent::WindowPassed),
        finish(Err(McpError::QuitImmediately { name: "flap".to_string() }))
    );
    assert!(!sup.restart_state("flap").ever_connected);
    assert!(!sup.is_running("flap"));
}

#[test]
fn spawn_and_connect_failures_are_reported() {
    let config = json(r#"{"command":"nope","args":[]}"#);
    let mut sup: Supervisor<Client> = Supervisor::new(McpSettings::default());
    let (mut launcher, _) = launch::<Client>("fs", &config, &runtimes()).unwrap();
    assert_eq!(
        launcher.step(&mut sup, LaunchEvent::SpawnFailed { reason: "ENOENT".to_string() }),
        finish(Err(McpError::SpawnFailed {
            name: "fs".to_string(),
            reason: "ENOENT".to_string(),
        }))
    );

    let (mut launcher, _) = launch::<Client>("fs", &config, &runtimes()).unwrap();
    launcher.step(&mut sup, LaunchEvent::Spawned { pid: Some(1) });
    assert_eq!(
        launcher.step(&mut sup, LaunchEvent::ConnectFailed { reason: "eof".to_string() }),
        Some(LaunchAction::ReadStderr)
    );
    assert_eq!(
        launcher.step(&mut sup, LaunchEvent::StderrRead { output: Some("boom".to_string()) }),
        finish(Err(McpError::StartFailed { name: "fs".to_string(), stderr: "boom".to_string() }))
    );

    let (mut launcher, _) = launch::<Client>("fs", &config, &runtimes()).unwrap();
    launcher.step(&mut sup, LaunchEvent::Spawned { pid: Some(1) });
    launcher.step(&mut sup, LaunchEvent::ConnectFailed { reason: "eof".to_string() });
    assert_eq!(
        launcher.step(&mut sup, LaunchEvent::StderrRead { output: None }),
        finish(Err(McpError::StderrUnreadable { name: "fs".to_string() }))
    );
    assert!(!sup.is_running("fs"));
}

#[test]
fn an_unreadable_config_ends_the_launch() {
    let e = launch::<Client>("fs", &json(r#"{"command":"x"}"#), &runtimes()).unwrap_err();
    assert_eq!(e, McpError::BadServerConfig { name: "fs".to_string() });
    assert_eq!(e.message(), "Failed to extract command args from config for fs");
}

fn bridge_config() -> Value {
    json(r#"{"command":"node","args":["bridge.js"],"env":{"BRIDGE_PORT":"41700"}}"#)
}

#[test]
fn port_occupied_and_reclaimed() {
    let mut old_owner = LockRegistry::new("old-owner".to_string());
    old_owner.write(41700, 555, "Jan Browser MCP".to_string(), 1);
    let mut locks = LockRegistry::new("new-owner".to_string());
    locks.load("41700.lock".to_string(), old_owner.read(41700).unwrap().clone());

    let config = bridge_config();
    let mut sup: Supervisor<Client> = Supervisor::new(McpSettings::default());
    sup.begin_start("Jan Browser MCP", &config);
    let (mut launcher, first) = launch::<Client>("Jan Browser MCP", &config, &runtimes()).unwrap();
    assert_eq!(first, LaunchAction::ProbePort { port: 41700 });
    assert_eq!(
        launcher.step(&mut sup, LaunchEvent::PortProbed { free: false }),
        Some(LaunchAction::Sweep { port: 41700 })
    );

    let (mut sweeper, read) = Sweeper::start(41700);
    assert_eq!(read, SweepAction::ReadLock { port: 41700 });
    let found = match locks.read(41700) {
        Some(entry) => LockFileState::Entry(entry.clone()),
        None => LockFileState::Missing,
    };
    assert_eq!(
        sweeper.step(SweepEvent::LockRead { lock: found }),
        Some(SweepAction::InspectProcess { pid: 555 })
    );
    assert_eq!(
        sweeper.step(SweepEvent::Inspected { status: HolderStatus::Ours }),
        Some(SweepAction::Reap { pid: 555 })
    );
    assert_eq!(
        sweeper.step(SweepEvent::Reaped { result: Ok(()) }),
        Some(SweepAction::DeleteLock { port: 41700 })
    );
    assert!(locks.delete(41700));
    sweeper.step(SweepEvent::LockDeleted);
    sweeper.step(SweepEvent::Slept);
    let swept = match sweeper.step(SweepEvent::PortProbed { free: true }) {
        Some(SweepAction::Finish { result }) => result,
        other => panic!("unexpected action {other:?}"),
    };
    assert_eq!(swept, Ok(true));

    let spawn = launcher.step(&mut sup, LaunchEvent::Swept { result: swept });
    assert_eq!(
        spawn,
        Some(LaunchAction::Spawn {
            plan: CommandPlan {
                program: "node".to_string(),
                args: vec!["bridge.js".to_string()],
                envs: vec![("BRIDGE_PORT".to_string(), "41700".to_string())],
                pipe_stderr: true,
                kill_on_drop: true,
                hide_console_window: true,
            },
        })
    );
    launcher.step(&mut sup, LaunchEvent::Spawned { pid: Some(777) });
    launcher.step(&mut sup, LaunchEvent::Connected { client: "c", now_ms: 5 });
    let done = launcher.step(&mut sup, LaunchEvent::WindowPassed);
    assert_eq!(done, finish(Ok(LaunchSuccess { write_lock: Some(41700), pid: Some(777), emit_update: true })));
    let (file, written) = locks.write(41700, 777, "Jan Browser MCP".to_string(), 9);
    assert_eq!(file, "41700.lock");
    assert_eq!(
        written,
        LockEntry {
            port: 41700,
            pid: 777,
            server_name: "Jan Browser MCP".to_string(),
            owner_token: "new-owner".to_string(),
            created_at: 9,
        }
    );
    assert_eq!(locks.read(41700).unwrap().pid, 777);
    assert_eq!(sup.entry("Jan Browser MCP").unwrap().port, Some(41700));
    assert_eq!(sup.entry("Jan Browser MCP").unwrap().pid, Some(777));
}

#[test]
fn a_free_bridge_port_needs_no_sweep() {
    let config = bridge_config();
    let mut sup: Supervisor<Client> = Supervisor::new(McpSettings::default());
    let (mut launcher, _) = launch::<Client>("Jan Browser MCP", &config, &runtimes()).unwrap();
    assert!(matches!(
        launcher.step(&mut sup, LaunchEvent::PortProbed { free: true }),
        Some(LaunchAction::Spawn { .. })
    ));
    let (other, first) = launch::<Client>("Other", &config, &runtimes()).unwrap();
    assert_eq!(other.lock_port, None);
    assert!(matches!(first, LaunchAction::Spawn { .. }));
}

#[test]
fn a_sweep_that_reclaims_nothing_or_fails_ends_the_launch() {
    let config = bridge_config();
    let mut sup: Supervisor<Client> = Supervisor::new(McpSettings::default());
    let (mut launcher, _) = launch::<Client>("Jan Browser MCP", &config, &runtimes()).unwrap();
    launcher.step(&mut sup, LaunchEvent::PortProbed { free: false });
    let action = launcher.step(&mut sup, LaunchEvent::Swept { result: Ok(false) });
    assert_eq!(action, finish(Err(McpError::PortInUse { port: 41700 })));

    let foreign = McpError::PortOccupiedByForeign {
        port: 41700,
        process_name: "nginx".to_string(),
        pid: 4242,
    };
    let (mut launcher, _) = launch::<Client>("Jan Browser MCP", &config, &runtimes()).unwrap();
    launcher.step(&mut sup, LaunchEvent::PortProbed { free: false });
    let action = launcher.step(&mut sup, LaunchEvent::Swept { result: Err(foreign.clone()) });
    assert_eq!(action, finish(Err(foreign)));
    assert!(!sup.is_running("Jan Browser MCP"));
}

#[test]
fn an_http_server_is_connected_with_elicitation() {
    let config = json(
        r#"{"type":"http","url":"https://x.test/mcp",
            "headers":{"Authorization":"Bearer t","Bad Name":"v","N":1},"timeout":7}"#,
    );
    let mut sup: Supervisor<Client> = Supervisor::new(McpSettings::default());
    sup.register("remote", "stale", TransportKind::Http, None, None, 1);
    let (mut launcher, first) = launch::<Client>("remote", &config, &runtimes()).unwrap();
    assert_eq!(
        first,
        LaunchAction::ConnectRemote {
            target: Some(RemoteTarget {
                url: "https://x.test/mcp".to_string(),
                headers: vec![("Authorization".to_string(), "Bearer t".to_string())],
                connect_timeout: Some(Duration::from_secs(7)),
            }),
        }
    );
    let done = launcher.step(&mut sup, LaunchEvent::Connected { client: "fresh", now_ms: 2 });
    match done {
        Some(LaunchAction::Finish { result, displaced }) => {
            assert_eq!(result, Ok(LaunchSuccess { write_lock: None, pid: None, emit_update: true }));
            assert_eq!(displaced.unwrap().client, "stale");
        },
        other => panic!("unexpected action {other:?}"),
    }
    assert_eq!(sup.entry("remote").unwrap().client, "fresh");
    assert_eq!(sup.entry("remote").unwrap().kind, TransportKind::Http);
    assert!(sup.entry("remote").unwrap().verified);
    assert!(sup.restart_state("remote").ever_connected);
    assert_eq!(sup.running_count(), 1);
}

#[test]
fn an_sse_server_starts_its_transport_first() {
    let config = json(r#"{"type":"sse","url":"http://h/sse"}"#);
    let mut sup: Supervisor<Client> = Supervisor::new(McpSettings::default());
    let (mut launcher, first) = launch::<Client>("events", &config, &runtimes()).unwrap();
    assert_eq!(
        first,
        LaunchAction::StartTransport {
            endpoint: RemoteTarget {
                url: "http://h/sse".to_string(),
                headers: vec![],
                connect_timeout: None,
            },
        }
    );
    assert_eq!(
        launcher.step(&mut sup, LaunchEvent::TransportStarted),
        Some(LaunchAction::ConnectRemote { target: None })
    );
    assert_eq!(
        launcher.step(&mut sup, LaunchEvent::ConnectFailed { reason: "reset".to_string() }),
        finish(Err(McpError::ConnectFailed { reason: "reset".to_string() }))
    );

    let (mut launcher, _) = launch::<Client>("events", &config, &runtimes()).unwrap();
    assert_eq!(
        launcher.step(&mut sup, LaunchEvent::TransportFailed { reason: "dns".to_string() }),
        finish(Err(McpError::TransportStartFailed { reason: "dns".to_string() }))
    );

    let (mut launcher, _) = launch::<Client>("events", &config, &runtimes()).unwrap();
    launcher.step(&mut sup, LaunchEvent::TransportStarted);
    assert_eq!(
        launcher.step(&mut sup, LaunchEvent::Connected { client: "c", now_ms: 3 }),
        finish(Ok(LaunchSuccess { write_lock: None, pid: None, emit_update: true }))
    );
    assert_eq!(sup.entry("events").unwrap().kind, TransportKind::Sse);
    assert!(sup.restart_state("events").ever_connected);
}

#[test]
fn an_http_entry_without_command_is_launched_over_http() {
    let config = json(r#"{"type": "http", "url": "http://localhost:9000/mcp"}"#);
    let mut sup: Supervisor<Client> = Supervisor::new(McpSettings::default());
    sup.begin_start("remote", &config);
    let (mut launcher, first) = launch::<Client>("remote", &config, &runtimes()).unwrap();
    assert_eq!(launcher.kind, TransportKind::Http);
    assert_eq!(
        first,
        LaunchAction::ConnectRemote {
            target: Some(RemoteTarget {
                url: "http://localhost:9000/mcp".to_string(),
                headers: vec![],
                connect_timeout: None,
            }),
        }
    );
    assert_eq!(
        launcher.step(&mut sup, LaunchEvent::Connected { client: "c", now_ms: 1 }),
        finish(Ok(LaunchSuccess { write_lock: None, pid: None, emit_update: true }))
    );
    assert!(sup.is_running("remote"));
    assert!(sup.restart_state("remote").ever_connected);
}

use mcp_supervisor::error::{McpError, SignalKind};

#[test]
fn every_error_has_its_wording() {
    let cases: Vec<(McpError, &str)> = vec![
        (McpError::ConfigRead { reason: "denied".into() }, "Failed to read config file: denied"),
        (McpError::ConfigParse { reason: "eof".into() }, "Failed to parse config: eof"),
        (McpError::NoServers, "No mcpServers found in config"),
        (McpError::ConfigRootNotObject, "Config root is not an object"),
        (McpError::ServersNotObject, "mcpServers is not an object"),
        (McpError::ConfigSerialize { reason: "x".into() }, "Failed to serialize config: x"),
        (McpError::ConfigWrite { reason: "full".into() }, "Failed to write config file: full"),
        (
            McpError::BadServerConfig { name: "fs".into() },
            "Failed to extract command args from config for fs",
        ),
        (
            McpError::PortInUse { port: 41700 },
            "Port 41700 is already in use. Please close the application using this port or restart Jan.",
        ),
        (
            McpError::PortOccupiedByForeign {
                port: 41700,
                process_name: "nginx".into(),
                pid: 4242,
            },
            "Port 41700 is in use by another application 'nginx' (PID 4242). Please close that application or use a different port.",
        ),
        (McpError::PortStillInUse { port: 80 }, "Port 80 still in use after killing process"),
        (
            McpError::SignalFailed {
                signal: SignalKind::Terminate,
                pid: 17,
                reason: "EPERM".into(),
            },
            "Failed to send SIGTERM to PID 17: EPERM",
        ),
        (
            McpError::SignalFailed { signal: SignalKind::Kill, pid: 0, reason: "ESRCH".into() },
            "Failed to send SIGKILL to PID 0: ESRCH",
        ),
        (
            McpError::SpawnFailed { name: "fs".into(), reason: "not found".into() },
            "Failed to run command fs: not found",
        ),
        (
            McpError::TransportStartFailed { reason: "refused".into() },
            "Failed to start SSE transport: refused",
        ),
        (McpError::ConnectFailed { reason: "reset".into() }, "Failed to connect to server: reset"),
        (
            McpError::StartFailed { name: "fs".into(), stderr: "boom\n".into() },
            "Failed to start MCP server fs: boom\n",
        ),
        (McpError::StderrUnreadable { name: "fs".into() }, "Failed to read MCP server fs stderr"),
        (
            McpError::QuitImmediately { name: "fs".into() },
            "MCP server fs quit immediately after starting",
        ),
    ];
    for (error, wording) in cases {
        assert_eq!(error.message(), wording);
    }
}

#[test]
fn foreign_holder_message_names_process_and_pid() {
    let e = McpError::PortOccupiedByForeign {
        port: 41700,
        process_name: "postgres".into(),
        pid: 4_294_967_295,
    };
    let m = e.message();
    assert!(m.contains("postgres"));
    assert!(m.contains("4294967295"));
    assert!(m.contains("41700"));
}

use mcp_supervisor::boot::{
    after_first_start, FirstStartFollowUp, servers_in, servers_to_start, summarize_boot, BootOutcome, BootSummary,
};
use mcp_supervisor::error::McpError;
use serde_json::Value;

fn json(text: &str) -> Value {
    serde_json::from_str(text).unwrap()
}

#[test]
fn active_servers_are_started() {
    let text = r#"{
        "mcpServers": {
            "a": {"command":"x","args":[],"active":true},
            "b": {"command":"y","args":[],"active":false},
            "c": {"command":"z","args":[]},
            "d": {"command":"w","args":[],"active":"false"}
        },
        "mcpSettings": {"toolCallTimeoutSeconds": 5},
        "unknown": 1
    }"#;
    let list = servers_to_start(text).unwrap();
    let names: Vec<&str> = list.iter().map(|(n, _)| n.as_str()).collect();
    assert_eq!(names, vec!["a", "c", "d"]);
    assert_eq!(list[0].1, json(r#"{"command":"x","args":[],"active":true}"#));
    assert_eq!(list[1].1, json(r#"{"command":"z","args":[]}"#));
}

#[test]
fn a_config_without_servers_starts_nothing() {
    assert!(servers_to_start("{}").unwrap().is_empty());
    assert!(servers_to_start(r#"{"mcpSettings":{}}"#).unwrap().is_empty());
    assert!(servers_to_start(r#"{"mcpServers":{}}"#).unwrap().is_empty());
}

#[test]
fn servers_of_the_wrong_kind_are_refused() {
    assert_eq!(servers_to_start(r#"{"mcpServers":[]}"#), Err(McpError::NoServers));
    assert_eq!(servers_to_start(r#"{"mcpServers":null}"#), Err(McpError::NoServers));
    assert_eq!(servers_to_start(r#"[]"#), Err(McpError::NoServers));
    assert_eq!(servers_to_start(r#""mcpServers""#), Err(McpError::NoServers));
    assert_eq!(
        servers_to_start(r#"{"mcpServers":"x"}"#).unwrap_err().message(),
        "No mcpServers found in config"
    );
}

#[test]
fn invalid_json_is_a_parse_error() {
    let e = servers_to_start("{").unwrap_err();
    assert!(matches!(e, McpError::ConfigParse { .. }));
    assert!(e.message().starts_with("Failed to parse config: "));
    assert!(matches!(servers_to_start("").unwrap_err(), McpError::ConfigParse { .. }));
}

#[test]
fn boot_summary_counts_both_kinds() {
    let outcomes = vec![
        BootOutcome::Started,
        BootOutcome::Failed,
        BootOutcome::Started,
        BootOutcome::Lost,
        BootOutcome::Started,
    ];
    assert_eq!(summarize_boot(&outcomes), BootSummary { successful: 3, failed: 2 });
    assert_eq!(summarize_boot(&Vec::new()), BootSummary { successful: 0, failed: 0 });
}

#[test]
fn servers_are_picked_from_a_parsed_config() {
    let config = json(
        r#"{"mcpServers":{"x":{"command":"a","args":[]},"y":{"command":"b","args":[],"active":false}}}"#,
    );
    let list = servers_in(&config).unwrap();
    assert_eq!(list, vec![("x".to_string(), json(r#"{"command":"a","args":[]}"#))]);
    assert!(servers_in(&json("{}")).unwrap().is_empty());
    assert_eq!(servers_in(&json("7")), Err(McpError::NoServers));
    assert_eq!(servers_in(&json(r#"{"mcpServers":7}"#)), Err(McpError::NoServers));
}

#[test]
fn a_server_that_is_up_gets_monitor_and_engine() {
    assert_eq!(after_first_start(true), FirstStartFollowUp::AttachMonitorAndEngine);
    assert_eq!(after_first_start(false), FirstStartFollowUp::Nothing);
}

#[test]
fn remote_servers_are_started_without_a_command() {
    let list = servers_to_start(
        r#"{"mcpServers":{"remote":{"type":"http","url":"http://localhost:9000/mcp"}}}"#,
    )
    .unwrap();
    assert_eq!(list.len(), 1);
    assert_eq!(list[0].0, "remote");
}

use mcp_supervisor::lockfile::{
    is_stale, lock_file_name, lock_record, lock_value, parse_lock_entry, render_lock_entry, port_of_lock_file_name, LockEntry, LockFileState,
    LockRegistry,
};

#[test]
fn the_file_name_encodes_the_port() {
    assert_eq!(lock_file_name(41700), "41700.lock");
    assert_eq!(lock_file_name(0), "0.lock");
    assert_eq!(lock_file_name(65535), "65535.lock");
    for port in [0u16, 1, 80, 443, 8080, 41700, 65535] {
        assert_eq!(port_of_lock_file_name(&lock_file_name(port)), Some(port));
    }
}

#[test]
fn other_file_names_stand_for_no_port() {
    for name in [
        "", ".lock", "lock", "41700", "41700.lck", "41700.lock ", " 41700.lock", "041700.lock",
        "+80.lock", "65536.lock", "-1.lock", "80.LOCK", "abc.lock", "80.lock.lock", "８０.lock",
        "80.lockx", "x80.lock",
    ] {
        assert_eq!(port_of_lock_file_name(name), None, "name {name:?}");
    }
}

#[test]
fn a_lock_is_stale_by_any_of_three_criteria() {
    assert!(!is_stale(true, true, true));
    assert!(is_stale(false, true, true));
    assert!(is_stale(true, false, true));
    assert!(is_stale(true, true, false));
    assert!(is_stale(false, false, false));
}

#[test]
fn a_lock_record_is_read_from_json() {
    let text = r#"{"port":41700,"pid":1234,"server_name":"Jan Browser MCP",
                   "owner_token":"tok-1","created_at":1700000000}"#;
    assert_eq!(
        parse_lock_entry(41700, text),
        LockFileState::Entry(LockEntry {
            port: 41700,
            pid: 1234,
            server_name: "Jan Browser MCP".to_string(),
            owner_token: "tok-1".to_string(),
            created_at: 1_700_000_000,
        })
    );
    let minimal = r#"{"pid":4294967295,"server_name":"s","owner_token":"t"}"#;
    assert_eq!(
        parse_lock_entry(7, minimal),
        LockFileState::Entry(LockEntry {
            port: 7,
            pid: u32::MAX,
            server_name: "s".to_string(),
            owner_token: "t".to_string(),
            created_at: 0,
        })
    );
}

#[test]
fn broken_lock_records_are_unparsable() {
    for text in [
        "",
        "not json",
        "[]",
        "{}",
        r#"{"pid":1,"server_name":"s"}"#,
        r#"{"pid":1,"owner_token":"t"}"#,
        r#"{"server_name":"s","owner_token":"t"}"#,
        r#"{"pid":"1","server_name":"s","owner_token":"t"}"#,
        r#"{"pid":-1,"server_name":"s","owner_token":"t"}"#,
        r#"{"pid":4294967296,"server_name":"s","owner_token":"t"}"#,
        r#"{"pid":1,"server_name":5,"owner_token":"t"}"#,
        r#"{"pid":1,"server_name":"s","owner_token":null}"#,
    ] {
        assert_eq!(parse_lock_entry(1, text), LockFileState::Unparsable, "text {text:?}");
    }
}

fn entry(port: u16, pid: u32, owner: &str) -> LockEntry {
    LockEntry {
        port,
        pid,
        server_name: "Jan Browser MCP".to_string(),
        owner_token: owner.to_string(),
        created_at: 5,
    }
}

#[test]
fn the_registry_writes_reads_and_deletes() {
    let mut registry = LockRegistry::new("me".to_string());
    assert_eq!(registry.read(41700), None);
    let (name, written) = registry.write(41700, 10, "Jan Browser MCP".to_string(), 5);
    assert_eq!(name, "41700.lock");
    assert_eq!(written, entry(41700, 10, "me"));
    assert_eq!(registry.read(41700), Some(&entry(41700, 10, "me")));
    let (_, replaced) = registry.write(41700, 11, "Jan Browser MCP".to_string(), 5);
    assert_eq!(replaced.pid, 11);
    assert_eq!(registry.read(41700), Some(&entry(41700, 11, "me")));
    assert_eq!(registry.read(41701), None);
    assert!(registry.delete(41700));
    assert!(!registry.delete(41700));
    assert_eq!(registry.read(41700), None);
}

#[test]
fn cleanup_own_is_idempotent() {
    let mut registry = LockRegistry::new("me".to_string());
    registry.load("1.lock".to_string(), entry(1, 10, "me"));
    registry.load("2.lock".to_string(), entry(2, 20, "other"));
    registry.write(3, 30, "Jan Browser MCP".to_string(), 5);
    registry.load("4.lock".to_string(), entry(4, 40, "ME"));
    let mut deleted = registry.cleanup_own();
    deleted.sort();
    assert_eq!(deleted, vec!["1.lock".to_string(), "3.lock".to_string()]);
    assert_eq!(registry.read(1), None);
    assert_eq!(registry.read(3), None);
    assert_eq!(registry.read(2), Some(&entry(2, 20, "other")));
    assert_eq!(registry.read(4), Some(&entry(4, 40, "ME")));
    assert!(registry.cleanup_own().is_empty());
    assert_eq!(registry.read(2), Some(&entry(2, 20, "other")));
    assert_eq!(registry.read(4), Some(&entry(4, 40, "ME")));
    assert!(registry.cleanup_own().is_empty());
}

#[test]
fn a_lock_record_is_read_from_a_parsed_value() {
    let value: serde_json::Value =
        serde_json::from_str(r#"{"pid":9,"server_name":"s","owner_token":"t","created_at":"x"}"#)
            .unwrap();
    assert_eq!(lock_record(3, &value), LockFileState::Entry(entry_of(3, 9, "s", "t", 0)));
    assert_eq!(lock_record(3, &serde_json::Value::Null), LockFileState::Unparsable);
}

fn entry_of(port: u16, pid: u32, server: &str, owner: &str, created_at: u64) -> LockEntry {
    LockEntry {
        port,
        pid,
        server_name: server.to_string(),
        owner_token: owner.to_string(),
        created_at,
    }
}

#[test]
fn a_written_lock_record_reads_back() {
    for e in [
        entry_of(41700, 1234, "Jan Browser MCP", "tok-1", 1_700_000_000),
        entry_of(0, 0, "", "", 0),
        entry_of(65535, u32::MAX, "quote\" and \\ and \n and caf\u{e9}", "t\u{0}", u64::MAX),
    ] {
        assert_eq!(lock_record(e.port, &lock_value(&e)), LockFileState::Entry(e.clone()));
        let text = render_lock_entry(&e).unwrap();
        assert_eq!(parse_lock_entry(e.port, &text), LockFileState::Entry(e.clone()));
        let value: serde_json::Value = serde_json::from_str(&text).unwrap();
        assert_eq!(value, lock_value(&e));
        assert_eq!(value.as_object().unwrap().len(), 5);
        assert_eq!(value["port"], serde_json::Value::from(e.port));
        assert_eq!(value["pid"], serde_json::Value::from(e.pid));
        assert_eq!(value["server_name"], serde_json::Value::from(e.server_name.clone()));
        assert_eq!(value["owner_token"], serde_json::Value::from(e.owner_token.clone()));
        assert_eq!(value["created_at"], serde_json::Value::from(e.created_at));
    }
}

#[test]
fn the_lock_directory_has_its_name() {
    assert_eq!(mcp_supervisor::lockfile::LOCK_DIR_NAME, "mcp_locks");
    assert_eq!(mcp_supervisor::config::CONFIG_FILE_NAME, "mcp_config.json");
}

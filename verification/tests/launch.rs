use mcp_supervisor::config::extract_command_args;
use mcp_supervisor::launch::{
    announces_elicitation, bun_binary_name, client_identity, uv_binary_name, forwarded_headers, plan_command, select_transport,
    text_members, BundledRuntimes, ClientIdentity, CommandPlan, TransportKind,
    NPX_CACHE_DIR_NAME, UVX_CACHE_DIR_NAME,
};
use serde_json::Value;

fn json(text: &str) -> Value {
    serde_json::from_str(text).unwrap()
}

fn object(text: &str) -> serde_json::Map<String, Value> {
    match json(text) {
        Value::Object(m) => m,
        _ => panic!("not an object"),
    }
}

fn runtimes(npx: bool, uvx: bool) -> BundledRuntimes {
    BundledRuntimes {
        bun_path: "/opt/app/bun".to_string(),
        can_override_npx: npx,
        npx_cache_dir: "/data/.npx".to_string(),
        uv_path: "/opt/app/uv".to_string(),
        can_override_uvx: uvx,
        uvx_cache_dir: "/data/.uvx".to_string(),
    }
}

#[test]
fn transport_follows_type_and_url() {
    let kind = |text: &str| select_transport(&extract_command_args(&json(text)).unwrap());
    assert_eq!(kind(r#"{"command":"x","args":[]}"#), TransportKind::Stdio);
    assert_eq!(kind(r#"{"command":"x","args":[],"type":"stdio"}"#), TransportKind::Stdio);
    assert_eq!(
        kind(r#"{"command":"x","args":[],"type":"http","url":"http://h"}"#),
        TransportKind::Http
    );
    assert_eq!(
        kind(r#"{"command":"x","args":[],"type":"sse","url":"http://h"}"#),
        TransportKind::Sse
    );
    assert_eq!(kind(r#"{"command":"x","args":[],"type":"http"}"#), TransportKind::Stdio);
    assert_eq!(kind(r#"{"command":"x","args":[],"type":"sse"}"#), TransportKind::Stdio);
    assert_eq!(kind(r#"{"command":"x","args":[],"url":"http://h"}"#), TransportKind::Stdio);
    assert_eq!(kind(r#"{"type":"http","url":"http://localhost:9000/mcp"}"#), TransportKind::Http);
    assert_eq!(kind(r#"{"type":"sse","url":"http://h/sse"}"#), TransportKind::Sse);
    assert_eq!(
        kind(r#"{"command":"x","args":[],"type":"HTTP","url":"http://h"}"#),
        TransportKind::Stdio
    );
}

#[test]
fn only_acceptable_headers_are_forwarded() {
    let headers = object(
        r#"{"Authorization":"Bearer abc","X-Count":5,"Bad Name":"v","X-Newline":"a\nb",
            "X-Tab":"a\tb","":"empty","X-Del":"a\u007fb","X-Utf":"café","Ünï":"v",
            "x!#$%&'*+-.^_`|~9":"ok","X(":"v","X:":"v","X-Empty":""}"#,
    );
    let mut got = forwarded_headers(&headers);
    got.sort();
    let mut expected = vec![
        ("Authorization".to_string(), "Bearer abc".to_string()),
        ("X-Tab".to_string(), "a\tb".to_string()),
        ("x!#$%&'*+-.^_`|~9".to_string(), "ok".to_string()),
        ("X-Empty".to_string(), "".to_string()),
    ];
    expected.sort();
    assert_eq!(got, expected);
}

#[test]
fn forwarded_headers_agree_with_the_http_crate() {
    let mut names: Vec<String> = (0u32..=0x7f)
        .map(|c| format!("x{}y", char::from_u32(c).unwrap()))
        .collect();
    names.push("a".repeat(64));
    names.push("a".repeat(65));
    names.push("A".repeat(65535));
    names.push("a".repeat(65536));
    for name in names {
        let mut m = serde_json::Map::new();
        m.insert(name.clone(), Value::String("v".to_string()));
        let accepted = http::header::HeaderName::from_bytes(name.as_bytes()).is_ok();
        assert_eq!(forwarded_headers(&m).len() == 1, accepted, "name {name:?}");
    }
    for c in (0u32..=0x100).chain([0x7ff, 0x800, 0xffff, 0x10000]) {
        let value = format!("a{}b", char::from_u32(c).unwrap());
        let mut m = serde_json::Map::new();
        m.insert("x-test".to_string(), Value::String(value.clone()));
        let accepted = http::header::HeaderValue::from_str(&value).is_ok();
        assert_eq!(forwarded_headers(&m).len() == 1, accepted && c < 0x80, "value {value:?}");
        if c >= 0x80 {
            assert!(accepted, "value {value:?}");
        }
    }
}

#[test]
fn text_members_keep_only_strings() {
    let envs = object(r#"{"A":"1","B":2,"C":null,"D":"","E":["x"]}"#);
    assert_eq!(
        text_members(&envs),
        vec![("A".to_string(), "1".to_string()), ("D".to_string(), "".to_string())]
    );
    assert!(text_members(&serde_json::Map::new()).is_empty());
}

#[test]
fn plain_command_is_started_as_configured() {
    let cfg = extract_command_args(&json(
        r#"{"command":"echo","args":["hi",1,"x"],"env":{"K":"v","N":3}}"#,
    ))
    .unwrap();
    assert_eq!(
        plan_command(&cfg, &runtimes(true, true)),
        CommandPlan {
            program: "echo".to_string(),
            args: vec!["hi".to_string(), "x".to_string()],
            envs: vec![("K".to_string(), "v".to_string())],
            pipe_stderr: true,
            kill_on_drop: true,
            hide_console_window: true,
        }
    );
}

#[test]
fn npx_is_run_by_bun_where_allowed() {
    let cfg = extract_command_args(&json(
        r#"{"command":"npx","args":["-y","pkg"],"env":{"BUN_INSTALL":"/mine"}}"#,
    ))
    .unwrap();
    assert_eq!(
        plan_command(&cfg, &runtimes(true, false)),
        CommandPlan {
            program: "/opt/app/bun".to_string(),
            args: vec!["x".to_string(), "-y".to_string(), "pkg".to_string()],
            envs: vec![
                ("BUN_INSTALL".to_string(), "/data/.npx".to_string()),
                ("BUN_INSTALL".to_string(), "/mine".to_string()),
            ],
            pipe_stderr: true,
            kill_on_drop: true,
            hide_console_window: true,
        }
    );
    let plain = plan_command(&cfg, &runtimes(false, true));
    assert_eq!(plain.program, "npx");
    assert_eq!(plain.args, vec!["-y".to_string(), "pkg".to_string()]);
    assert_eq!(plain.envs, vec![("BUN_INSTALL".to_string(), "/mine".to_string())]);
}

#[test]
fn uvx_is_run_by_uv_where_allowed() {
    let cfg =
        extract_command_args(&json(r#"{"command":"uvx","args":["tool-a"]}"#)).unwrap();
    assert_eq!(
        plan_command(&cfg, &runtimes(true, true)),
        CommandPlan {
            program: "/opt/app/uv".to_string(),
            args: vec!["tool".to_string(), "run".to_string(), "tool-a".to_string()],
            envs: vec![("UV_CACHE_DIR".to_string(), "/data/.uvx".to_string())],
            pipe_stderr: true,
            kill_on_drop: true,
            hide_console_window: true,
        }
    );
    let plain = plan_command(&cfg, &runtimes(true, false));
    assert_eq!(plain.program, "uvx");
    assert_eq!(plain.args, vec!["tool-a".to_string()]);
    assert!(plain.envs.is_empty());
}

#[test]
fn clients_introduce_themselves() {
    assert_eq!(client_identity(TransportKind::Stdio), None);
    assert_eq!(
        client_identity(TransportKind::Sse),
        Some(ClientIdentity { name: "Jan SSE Client", version: "0.0.1" })
    );
    assert_eq!(
        client_identity(TransportKind::Http),
        Some(ClientIdentity { name: "Jan Client", version: "0.0.1" })
    );
    assert!(announces_elicitation(TransportKind::Http));
    assert!(!announces_elicitation(TransportKind::Sse));
    assert!(!announces_elicitation(TransportKind::Stdio));
}

#[test]
fn bundled_runtimes_have_their_names() {
    assert_eq!(bun_binary_name(false), "bun");
    assert_eq!(bun_binary_name(true), "bun.exe");
    assert_eq!(uv_binary_name(false), "uv");
    assert_eq!(uv_binary_name(true), "uv.exe");
    assert_eq!(NPX_CACHE_DIR_NAME, ".npx");
    assert_eq!(UVX_CACHE_DIR_NAME, ".uvx");
}

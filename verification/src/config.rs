//! Reading the configuration of the servers.

use vstd::prelude::*;
use core::time::Duration;
use serde_json::Value;
use crate::error::McpError;
use crate::json::{
    json_count, json_error_text, json_flag, json_items, json_member, json_object, json_of_object,
    json_text, empty_object, object_entries, object_get, object_map, object_value, object_with, parse_json,
    parsed_json, pretty_json, member, write_json_pretty,
};
use crate::launch::{declared_type, transport_of, TransportKind};
use crate::models::McpServerConfig;
use crate::table::NameTable;
use crate::text::{parse_port, port_of_text, same_text};
use crate::time::{duration_millis, duration_of_secs};

verus! {

/// The name of the configuration file inside the data folder of the
/// application.
pub const CONFIG_FILE_NAME: &'static str = "mcp_config.json";

/// The server whose bridge port is guarded by a lock file.
pub open spec fn bridge_server_name() -> Seq<char> {
    "Jan Browser MCP"@
}

/// The key of the environment entry that names the bridge port.
pub open spec fn bridge_port_key() -> Seq<char> {
    "BRIDGE_PORT"@
}

/// The text of the member `key` of the object `obj`: none where there is no
/// such member or it is no string.
pub open spec fn member_text(obj: serde_json::Map<String, Value>, key: Seq<char>) -> Option<
    Seq<char>,
> {
    if object_map(obj).contains_key(key) {
        json_text(object_map(obj)[key])
    } else {
        None
    }
}

/// The number of the member `key` of the object `obj`: none where there is no
/// such member or it is no number that fits an unsigned 64-bit integer.
pub open spec fn member_count(obj: serde_json::Map<String, Value>, key: Seq<char>) -> Option<u64> {
    if object_map(obj).contains_key(key) {
        json_count(object_map(obj)[key])
    } else {
        None
    }
}

/// The elements of the member `key` of the object `obj`: none where there is
/// no such member or it is no array.
pub open spec fn member_items(obj: serde_json::Map<String, Value>, key: Seq<char>) -> Option<
    Seq<Value>,
> {
    if object_map(obj).contains_key(key) {
        json_items(object_map(obj)[key])
    } else {
        None
    }
}

/// What the member `key` of `obj` must be for the configuration to be read:
/// absent, or an object.
pub open spec fn absent_or_object(obj: serde_json::Map<String, Value>, key: Seq<char>) -> bool {
    object_map(obj).contains_key(key) ==> json_object(object_map(obj)[key]) is Some
}

/// The transport that the object `obj` asks for: `http` or `sse` where it
/// declares that type and gives a URL, and a child process otherwise.
pub open spec fn entry_transport(obj: serde_json::Map<String, Value>) -> TransportKind {
    transport_of(member_text(obj, "type"@), member_text(obj, "url"@) is Some)
}

/// The configuration of a server can be read: it is an object, `headers` and
/// `env`, where it has them, are objects, and, where it asks for a child
/// process, its `command` is a string and its `args` is an array. An entry
/// for a remote server needs neither `command` nor `args`.
pub open spec fn command_args_readable(config: Value) -> bool {
    match json_object(config) {
        Some(obj) => {
            &&& absent_or_object(obj, "headers"@)
            &&& absent_or_object(obj, "env"@)
            &&& entry_transport(obj) == TransportKind::Stdio ==> member_text(obj, "command"@)
                is Some && member_items(obj, "args"@) is Some
        },
        None => false,
    }
}

/// The object that `cfg` took from the member `key` of `obj`: that member, or
/// an object without members where there is none.
pub open spec fn took_object(
    obj: serde_json::Map<String, Value>,
    key: Seq<char>,
    taken: serde_json::Map<String, Value>,
) -> bool {
    if object_map(obj).contains_key(key) {
        json_object(object_map(obj)[key]) == Some(taken)
    } else {
        object_entries(taken).len() == 0
    }
}

/// `cfg` holds what the object `obj` says of a server. A `command` that is
/// absent or no string reads as the empty text, and `args` that are absent or
/// no array read as no arguments; in an entry for a child process neither
/// happens.
pub open spec fn reads_from(cfg: McpServerConfig, obj: serde_json::Map<String, Value>) -> bool {
    &&& cfg.command@ == (match member_text(obj, "command"@) {
        Some(command) => command,
        None => Seq::empty(),
    })
    &&& cfg.args@ == (match member_items(obj, "args"@) {
        Some(args) => args,
        None => Seq::empty(),
    })
    &&& match cfg.url {
        Some(u) => member_text(obj, "url"@) == Some(u@),
        None => member_text(obj, "url"@) is None,
    }
    &&& match cfg.transport_type {
        Some(t) => member_text(obj, "type"@) == Some(t@),
        None => member_text(obj, "type"@) is None,
    }
    &&& match (cfg.timeout, member_count(obj, "timeout"@)) {
        (Some(d), Some(secs)) => d == duration_of_secs(secs) && duration_millis(d) == secs as nat
            * 1000,
        (None, None) => true,
        _ => false,
    }
    &&& took_object(obj, "headers"@, cfg.headers)
    &&& took_object(obj, "env"@, cfg.envs)
}

/// Reads from the configuration of one server what the launcher needs. An
/// entry for a child process needs a string `command` and an array `args`;
/// an entry for a remote server, one that declares the type `http` or `sse`
/// and gives a URL, needs neither. It gives nothing where the configuration
/// is no object, where an entry for a child process lacks `command` or
/// `args`, or where `headers` or `env` are there and are no objects.
pub fn extract_command_args(config: &Value) -> (r: Option<McpServerConfig>)
    ensures
        r is Some <==> command_args_readable(*config),
        r matches Some(cfg) ==> reads_from(cfg, json_object(*config).unwrap()) && transport_of(
            declared_type(cfg),
            cfg.url is Some,
        ) == entry_transport(json_object(*config).unwrap()),
{
    let obj = match config.as_object() {
        Some(obj) => obj,
        None => {
            return None;
        },
    };
    let url = match object_get(obj, "url") {
        Some(u) => match u.as_str() {
            Some(u) => Some(u.to_owned()),
            None => None,
        },
        None => None,
    };
    let transport_type = match object_get(obj, "type") {
        Some(t) => match t.as_str() {
            Some(t) => Some(t.to_owned()),
            None => None,
        },
        None => None,
    };
    let remote = match &transport_type {
        Some(t) => url.is_some() && (same_text(t.as_str(), "http") || same_text(t.as_str(), "sse")),
        None => false,
    };
    let command = match object_get(obj, "command") {
        Some(c) => match c.as_str() {
            Some(c) => Some(c.to_owned()),
            None => None,
        },
        None => None,
    };
    let command = match command {
        Some(command) => command,
        None => {
            if !remote {
                return None;
            }
            String::new()
        },
    };
    let args = match object_get(obj, "args") {
        Some(a) => match a.as_array() {
            Some(a) => {
                let items = a.clone();
                assert(items@ =~= a@);
                Some(items)
            },
            None => None,
        },
        None => None,
    };
    let args = match args {
        Some(args) => args,
        None => {
            if !remote {
                return None;
            }
            Vec::new()
        },
    };
    let timeout = match object_get(obj, "timeout") {
        Some(t) => match t.as_u64() {
            Some(secs) => Some(Duration::from_secs(secs)),
            None => None,
        },
        None => None,
    };
    let headers = match object_get(obj, "headers") {
        Some(h) => match h.as_object() {
            Some(h) => h.clone(),
            None => {
                return None;
            },
        },
        None => serde_json::Map::new(),
    };
    let envs = match object_get(obj, "env") {
        Some(e) => match e.as_object() {
            Some(e) => e.clone(),
            None => {
                return None;
            },
        },
        None => serde_json::Map::new(),
    };
    Some(McpServerConfig { timeout, transport_type, url, command, args, envs, headers })
}

/// What the configuration of a server says of `active`: none where the
/// configuration is no object, has no such member, or has one that is no
/// boolean.
pub open spec fn active_status(config: Value) -> Option<bool> {
    match json_member(config, "active"@) {
        Some(a) => json_flag(a),
        None => None,
    }
}

/// Reads whether the configuration of a server declares it active.
pub fn extract_active_status(config: &Value) -> (r: Option<bool>)
    ensures
        r == active_status(*config),
{
    let obj = match config.as_object() {
        Some(obj) => obj,
        None => {
            return None;
        },
    };
    match object_get(obj, "active") {
        Some(a) => a.as_bool(),
        None => None,
    }
}

/// The bridge port that the environment `envs` declares: the port that its
/// string member `BRIDGE_PORT` spells.
pub open spec fn declared_bridge_port(envs: serde_json::Map<String, Value>) -> Option<u16> {
    match member_text(envs, bridge_port_key()) {
        Some(text) => port_of_text(text),
        None => None,
    }
}

/// The port that a lock file guards for the server `name` with the
/// environment `envs`: the declared bridge port of the one server that has a
/// bridge, and none for every other server.
pub open spec fn guarded_port(name: Seq<char>, envs: serde_json::Map<String, Value>) -> Option<
    u16,
> {
    if name == bridge_server_name() {
        declared_bridge_port(envs)
    } else {
        None
    }
}

/// Whether `name` is the server that has a bridge port.
pub fn is_bridge_server(name: &str) -> (b: bool)
    ensures
        b == (name@ == bridge_server_name()),
{
    name.to_owned() == "Jan Browser MCP".to_owned()
}

/// The port that a lock file guards for the server `name`, read from the
/// environment that its configuration declares.
pub fn bridge_port(name: &str, envs: &serde_json::Map<String, Value>) -> (r: Option<u16>)
    ensures
        r == guarded_port(name@, *envs),
{
    if !is_bridge_server(name) {
        return None;
    }
    match object_get(envs, "BRIDGE_PORT") {
        Some(p) => match p.as_str() {
            Some(text) => parse_port(text),
            None => None,
        },
        None => None,
    }
}

/// The port that a lock file guards for the server `name`, read from its
/// whole configuration: the bridge port that the member `env` declares.
pub open spec fn guarded_port_of_config(name: Seq<char>, config: Value) -> Option<u16> {
    if name == bridge_server_name() {
        match json_member(config, "env"@) {
            Some(env) => match json_member(env, bridge_port_key()) {
                Some(p) => match json_text(p) {
                    Some(text) => port_of_text(text),
                    None => None,
                },
                None => None,
            },
            None => None,
        }
    } else {
        None
    }
}

/// The port that a lock file guards for the server `name`, read from its
/// whole configuration.
pub fn bridge_port_of_config(name: &str, config: &Value) -> (r: Option<u16>)
    ensures
        r == guarded_port_of_config(name@, *config),
{
    if !is_bridge_server(name) {
        return None;
    }
    match member(config, "env") {
        Some(env) => match member(env, "BRIDGE_PORT") {
            Some(p) => match p.as_str() {
                Some(text) => parse_port(text),
                None => None,
            },
            None => None,
        },
        None => None,
    }
}

/// Remembers the configuration of a server that is being started, so that it
/// can be started again.
pub fn store_active_server_config(active_servers: &mut NameTable<Value>, name: &str, config: &Value)
    requires
        old(active_servers).wf(),
    ensures
        final(active_servers).wf(),
        final(active_servers)@ == old(active_servers)@.insert(name@, *config),
{
    active_servers.insert(name.to_owned(), config.clone());
}

/// The key under which the configuration holds the servers.
pub open spec fn servers_key() -> Seq<char> {
    "mcpServers"@
}

/// The servers that the configuration object `root` holds: the members of its
/// `mcpServers`, no members where it has none, and nothing where it holds
/// something else than an object there.
pub open spec fn servers_of_root(root: serde_json::Map<String, Value>) -> Option<
    serde_json::Map<String, Value>,
> {
    if object_map(root).contains_key(servers_key()) {
        json_object(object_map(root)[servers_key()])
    } else {
        Some(empty_object())
    }
}

/// The configuration `root` with the server `key` set to `value` among the
/// servers `servers`.
pub open spec fn root_with_server(
    root: serde_json::Map<String, Value>,
    servers: serde_json::Map<String, Value>,
    key: Seq<char>,
    value: Value,
) -> Value {
    json_of_object(object_with(root, servers_key(), json_of_object(object_with(servers, key, value))))
}

/// What adding the server `key` with the configuration `value` to the
/// configuration text gives: the new text, or the error.
pub open spec fn added_server(text: Seq<char>, key: Seq<char>, value: Value) -> Result<
    Seq<char>,
    AddServerFailure,
> {
    match parsed_json(text) {
        None => Err(AddServerFailure::Parse),
        Some(config) => match json_object(config) {
            None => Err(AddServerFailure::RootNotObject),
            Some(root) => match servers_of_root(root) {
                None => Err(AddServerFailure::ServersNotObject),
                Some(servers) => match pretty_json(root_with_server(root, servers, key, value)) {
                    None => Err(AddServerFailure::Serialize),
                    Some(out) => Ok(out),
                },
            },
        },
    }
}

/// Why a server could not be added to a configuration text.
pub enum AddServerFailure {
    /// The text is no valid JSON.
    Parse,
    /// The text is valid JSON, but no object.
    RootNotObject,
    /// The configuration holds something else than an object where the servers
    /// belong.
    ServersNotObject,
    /// The new configuration could not be written as text.
    Serialize,
}

/// The failure that an error of `add_server_to_config` stands for.
pub open spec fn failure_of(e: McpError) -> Option<AddServerFailure> {
    match e {
        McpError::ConfigParse { reason } => Some(AddServerFailure::Parse),
        McpError::ConfigRootNotObject => Some(AddServerFailure::RootNotObject),
        McpError::ServersNotObject => Some(AddServerFailure::ServersNotObject),
        McpError::ConfigSerialize { reason } => Some(AddServerFailure::Serialize),
        _ => None,
    }
}

/// The servers of the configuration object `root` by name: the members of
/// its `mcpServers`, and none where it has no such member.
pub open spec fn server_members(root: serde_json::Map<String, Value>) -> Map<Seq<char>, Value> {
    match servers_of_root(root) {
        Some(servers) => if object_map(root).contains_key(servers_key()) {
            object_map(servers)
        } else {
            Map::empty()
        },
        None => Map::empty(),
    }
}

/// `updated` is the configuration `root` with the server `key` set to
/// `value`: an object that keeps every other member of `root` and holds under
/// `mcpServers` an object with the servers of `root`, each as it was, and
/// `value` under `key`.
pub open spec fn holds_added_server(
    root: serde_json::Map<String, Value>,
    updated: Value,
    key: Seq<char>,
    value: Value,
) -> bool {
    &&& json_object(updated) matches Some(m)
    &&& object_map(m).dom() == object_map(root).dom().insert(servers_key())
    &&& forall|k: Seq<char>|
        k != servers_key() && #[trigger] object_map(root).contains_key(k) ==> object_map(m)[k]
            == object_map(root)[k]
    &&& json_object(object_map(m)[servers_key()]) matches Some(servers)
    &&& object_map(servers) == server_members(root).insert(key, value)
}

/// Adds the server `server_key` with the configuration `server_value` to the
/// configuration `config` and hands back the new configuration. The object of
/// servers is created where the configuration has none; a server of the same
/// key is replaced, and everything else is kept.
pub fn add_server(config: &Value, server_key: String, server_value: Value) -> (r: Result<
    Value,
    McpError,
>)
    ensures
        match r {
            Ok(updated) => json_object(*config) matches Some(root) && servers_of_root(
                root,
            ) matches Some(servers) && updated == root_with_server(
                root,
                servers,
                server_key@,
                server_value,
            ) && holds_added_server(root, updated, server_key@, server_value),
            Err(McpError::ConfigRootNotObject) => json_object(*config) is None,
            Err(McpError::ServersNotObject) => json_object(*config) matches Some(root)
                && servers_of_root(root) is None,
            Err(_) => false,
        },
{
    let mut root = match config.as_object() {
        Some(root) => root.clone(),
        None => {
            return Err(McpError::ConfigRootNotObject);
        },
    };
    let mut servers = match object_get(&root, "mcpServers") {
        Some(s) => match s.as_object() {
            Some(s) => s.clone(),
            None => {
                return Err(McpError::ServersNotObject);
            },
        },
        None => {
            let empty = serde_json::Map::new();
            assert(empty == empty_object());
            assert(object_map(empty) =~= Map::<Seq<char>, Value>::empty());
            empty
        },
    };
    let ghost before = root;
    servers.insert(server_key, server_value);
    assert(object_map(servers) == server_members(before).insert(server_key@, server_value));
    root.insert("mcpServers".to_owned(), object_value(servers));
    assert(object_map(root).dom() =~= object_map(before).dom().insert(servers_key()));
    Ok(object_value(root))
}

/// Adds the server `server_key` with the configuration `server_value` to the
/// configuration in `config_text` and hands back the new text, pretty-printed:
/// what `add_server` makes of the configuration that the text spells.
pub fn add_server_to_config(config_text: &str, server_key: String, server_value: Value) -> (r:
    Result<String, McpError>)
    ensures
        match (r, added_server(config_text@, server_key@, server_value)) {
            (Ok(out), Ok(expected)) => out@ == expected,
            (Err(e), Err(failure)) => failure_of(e) == Some(failure),
            _ => false,
        },
{
    let config = match parse_json(config_text) {
        Ok(config) => config,
        Err(e) => {
            return Err(McpError::ConfigParse { reason: json_error_text(&e) });
        },
    };
    let updated = match add_server(&config, server_key, server_value) {
        Ok(updated) => updated,
        Err(e) => {
            return Err(e);
        },
    };
    match write_json_pretty(&updated) {
        Ok(out) => Ok(out),
        Err(e) => Err(McpError::ConfigSerialize { reason: json_error_text(&e) }),
    }
}

} // verus!

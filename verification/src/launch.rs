//! The transport launcher: what to start for one server, and with what.

use vstd::prelude::*;
use vstd::string::*;
use serde_json::Value;
use crate::json::{json_text, object_entries, object_pairs};
use crate::models::McpServerConfig;
use crate::text::same_text;

verus! {

/// How the supervisor talks to a server.
#[derive(Debug, Clone, Copy, PartialEq, Eq, Structural)]
pub enum TransportKind {
    /// A child process, over its standard input and output.
    Stdio,
    /// A remote endpoint, over server-sent events.
    Sse,
    /// A remote endpoint, over streamable HTTP, with elicitation.
    Http,
}

/// The transport that a configuration asks for: `http` or `sse` where it
/// declares that type and gives a URL, and a child process otherwise.
pub open spec fn transport_of(transport_type: Option<Seq<char>>, has_url: bool) -> TransportKind {
    if transport_type == Some("http"@) && has_url {
        TransportKind::Http
    } else if transport_type == Some("sse"@) && has_url {
        TransportKind::Sse
    } else {
        TransportKind::Stdio
    }
}

/// The declared transport type of `config`, by its characters.
pub open spec fn declared_type(config: McpServerConfig) -> Option<Seq<char>> {
    match config.transport_type {
        Some(t) => Some(t@),
        None => None,
    }
}

/// Chooses the transport for a server from its configuration.
pub fn select_transport(config: &McpServerConfig) -> (kind: TransportKind)
    ensures
        kind == transport_of(declared_type(*config), config.url is Some),
{
    match &config.transport_type {
        Some(t) => {
            if same_text(t.as_str(), "http") && config.url.is_some() {
                TransportKind::Http
            } else if same_text(t.as_str(), "sse") && config.url.is_some() {
                TransportKind::Sse
            } else {
                TransportKind::Stdio
            }
        },
        None => TransportKind::Stdio,
    }
}

/// `c` may stand in the name of an HTTP header: a letter, a digit, or one of
/// the signs that a token admits.
pub open spec fn is_header_name_char(c: char) -> bool {
    ||| ('a' <= c && c <= 'z')
    ||| ('A' <= c && c <= 'Z')
    ||| ('0' <= c && c <= '9')
    ||| c == '!'
    ||| c == '#'
    ||| c == '$'
    ||| c == '%'
    ||| c == '&'
    ||| c == '\''
    ||| c == '*'
    ||| c == '+'
    ||| c == '-'
    ||| c == '.'
    ||| c == '^'
    ||| c == '_'
    ||| c == '`'
    ||| c == '|'
    ||| c == '~'
}

/// `name` can be the name of an HTTP header: between one and 65535
/// characters, each of which may stand in a name.
pub open spec fn header_name_accepted(name: Seq<char>) -> bool {
    &&& 1 <= name.len() <= 65535
    &&& forall|i: int| 0 <= i < name.len() ==> is_header_name_char(#[trigger] name[i])
}

/// `c` may stand in the value of an HTTP header: a tab, or any character
/// from the space on but the delete character.
pub open spec fn is_header_value_char(c: char) -> bool {
    c == '\t' || (' ' <= c && c != '\u{7f}')
}

/// `value` can be the value of an HTTP header.
pub open spec fn header_value_accepted(value: Seq<char>) -> bool {
    forall|i: int| 0 <= i < value.len() ==> is_header_value_char(#[trigger] value[i])
}

/// Whether `HeaderName::from_bytes` accepts the bytes of `name`. It does so
/// for one to 65535 bytes of which each is a letter, a digit or one of the
/// signs of a token.
#[verifier::external_body]
fn header_name_ok(name: &str) -> (ok: bool)
    ensures
        ok == header_name_accepted(name@),
{
    http::header::HeaderName::from_bytes(name.as_bytes()).is_ok()
}

/// Whether `HeaderValue::from_str` accepts `value`. It does so where every
/// byte is a tab or at least 32 and not 127; the bytes of a character beyond
/// ASCII are all above 127.
#[verifier::external_body]
fn header_value_ok(value: &str) -> (ok: bool)
    ensures
        ok == header_value_accepted(value@),
{
    http::header::HeaderValue::from_str(value).is_ok()
}

/// The text members among `entries`, in order: every pair whose value is a
/// JSON string, with that string.
pub open spec fn text_entries(entries: Seq<(Seq<char>, Value)>) -> Seq<(Seq<char>, Seq<char>)>
    decreases entries.len(),
{
    if entries.len() == 0 {
        Seq::empty()
    } else {
        let earlier = text_entries(entries.drop_last());
        match json_text(entries.last().1) {
            Some(text) => earlier.push((entries.last().0, text)),
            None => earlier,
        }
    }
}

/// A pair of name and value is sent as a header where HTTP accepts both and
/// the value is plain ASCII. A name that HTTP accepts is plain ASCII already.
pub open spec fn header_forwarded(name: Seq<char>, value: Seq<char>) -> bool {
    &&& header_name_accepted(name)
    &&& header_value_accepted(value)
    &&& vstd::utf8::is_ascii_chars(value)
}

/// The headers among `entries` that are sent, in order: every text member
/// whose name and value HTTP accepts and whose value is plain ASCII.
pub open spec fn forwarded(entries: Seq<(Seq<char>, Value)>) -> Seq<(Seq<char>, Seq<char>)>
    decreases entries.len(),
{
    if entries.len() == 0 {
        Seq::empty()
    } else {
        let earlier = forwarded(entries.drop_last());
        match json_text(entries.last().1) {
            Some(text) => if header_forwarded(entries.last().0, text) {
                earlier.push((entries.last().0, text))
            } else {
                earlier
            },
            None => earlier,
        }
    }
}

/// The texts among `items`, in order: every JSON string.
pub open spec fn text_items(items: Seq<Value>) -> Seq<Seq<char>>
    decreases items.len(),
{
    if items.len() == 0 {
        Seq::empty()
    } else {
        let earlier = text_items(items.drop_last());
        match json_text(items.last()) {
            Some(text) => earlier.push(text),
            None => earlier,
        }
    }
}

/// The pairs of text that `pairs` holds.
pub open spec fn pairs_view(pairs: Seq<(String, String)>) -> Seq<(Seq<char>, Seq<char>)> {
    Seq::new(pairs.len(), |i: int| (pairs[i].0@, pairs[i].1@))
}

/// The texts that `texts` holds.
pub open spec fn texts_view(texts: Seq<String>) -> Seq<Seq<char>> {
    Seq::new(texts.len(), |i: int| texts[i]@)
}

/// The request headers for a remote server: the configured headers whose
/// value is a string of plain ASCII and that HTTP accepts, in the order in
/// which the object hands its members out. A later header replaces an earlier
/// one of the same name.
pub fn forwarded_headers(headers: &serde_json::Map<String, Value>) -> (r: Vec<(String, String)>)
    ensures
        pairs_view(r@) == forwarded(object_entries(*headers)),
{
    let pairs = object_pairs(headers);
    let ghost entries = object_entries(*headers);
    let mut out: Vec<(String, String)> = Vec::new();
    let mut i: usize = 0;
    assert(entries.subrange(0, 0) =~= Seq::<(Seq<char>, Value)>::empty());
    assert(pairs_view(out@) =~= forwarded(entries.subrange(0, 0)));
    while i < pairs.len()
        invariant
            0 <= i <= pairs@.len(),
            pairs@.len() == entries.len(),
            forall|k: int|
                0 <= k < pairs@.len() ==> (#[trigger] pairs@[k]).0@ == entries[k].0 && *pairs@[k].1
                    == entries[k].1,
            pairs_view(out@) == forwarded(entries.subrange(0, i as int)),
        decreases pairs@.len() - i,
    {
        let (name, value) = pairs[i];
        let ghost before = out@;
        assert(entries.subrange(0, i + 1).drop_last() =~= entries.subrange(0, i as int));
        assert(entries.subrange(0, i + 1).last() == entries[i as int]);
        match value.as_str() {
            Some(text) => {
                if header_name_ok(name.as_str()) && header_value_ok(text) && text.is_ascii() {
                    out.push((name.clone(), text.to_owned()));
                    assert(pairs_view(out@) =~= pairs_view(before).push((name@, text@)));
                }
            },
            None => {},
        }
        i = i + 1;
    }
    assert(entries.subrange(0, i as int) =~= entries);
    out
}

/// The environment that a configuration gives to a child process: the
/// members whose value is a string, in the order of the configuration.
pub fn text_members(envs: &serde_json::Map<String, Value>) -> (r: Vec<(String, String)>)
    ensures
        pairs_view(r@) == text_entries(object_entries(*envs)),
{
    let pairs = object_pairs(envs);
    let ghost entries = object_entries(*envs);
    let mut out: Vec<(String, String)> = Vec::new();
    let mut i: usize = 0;
    assert(entries.subrange(0, 0) =~= Seq::<(Seq<char>, Value)>::empty());
    assert(pairs_view(out@) =~= text_entries(entries.subrange(0, 0)));
    while i < pairs.len()
        invariant
            0 <= i <= pairs@.len(),
            pairs@.len() == entries.len(),
            forall|k: int|
                0 <= k < pairs@.len() ==> (#[trigger] pairs@[k]).0@ == entries[k].0 && *pairs@[k].1
                    == entries[k].1,
            pairs_view(out@) == text_entries(entries.subrange(0, i as int)),
        decreases pairs@.len() - i,
    {
        let (name, value) = pairs[i];
        let ghost before = out@;
        assert(entries.subrange(0, i + 1).drop_last() =~= entries.subrange(0, i as int));
        assert(entries.subrange(0, i + 1).last() == entries[i as int]);
        match value.as_str() {
            Some(text) => {
                out.push((name.clone(), text.to_owned()));
                assert(pairs_view(out@) =~= pairs_view(before).push((name@, text@)));
            },
            None => {},
        }
        i = i + 1;
    }
    assert(entries.subrange(0, i as int) =~= entries);
    out
}

/// The directory inside the data folder in which the bundled `bun` keeps
/// what it installs.
pub const NPX_CACHE_DIR_NAME: &'static str = ".npx";

/// The directory inside the data folder in which the bundled `uv` keeps its
/// cache.
pub const UVX_CACHE_DIR_NAME: &'static str = ".uvx";

/// The file name of the bundled `bun`, beside the executable of the
/// application.
pub fn bun_binary_name(windows: bool) -> (name: &'static str)
    ensures
        name@ == (if windows {
            "bun.exe"@
        } else {
            "bun"@
        }),
{
    if windows {
        "bun.exe"
    } else {
        "bun"
    }
}

/// The file name of the bundled `uv`, beside the executable of the
/// application.
pub fn uv_binary_name(windows: bool) -> (name: &'static str)
    ensures
        name@ == (if windows {
            "uv.exe"@
        } else {
            "uv"@
        }),
{
    if windows {
        "uv.exe"
    } else {
        "uv"
    }
}

/// What the host found for the bundled runtimes that may stand in for `npx`
/// and `uvx`.
#[derive(Debug, Clone)]
pub struct BundledRuntimes {
    /// The path of the bundled `bun`.
    pub bun_path: String,
    /// Whether `bun` is there and may stand in for `npx`.
    pub can_override_npx: bool,
    /// The directory in which `bun` keeps what it installs.
    pub npx_cache_dir: String,
    /// The path of the bundled `uv`.
    pub uv_path: String,
    /// Whether `uv` is there and may stand in for `uvx`.
    pub can_override_uvx: bool,
    /// The directory in which `uv` keeps its cache.
    pub uvx_cache_dir: String,
}

/// The child process to start for a local server.
#[derive(Debug, Clone, PartialEq, Eq)]
pub struct CommandPlan {
    /// The program.
    pub program: String,
    /// Its arguments, in order.
    pub args: Vec<String>,
    /// The additions to its environment, in order; a later one replaces an
    /// earlier one of the same name.
    pub envs: Vec<(String, String)>,
    /// Whether the error output of the child is piped to the supervisor.
    pub pipe_stderr: bool,
    /// Whether the child is killed when its handle is dropped.
    pub kill_on_drop: bool,
    /// Whether the child gets no console window, where the platform has
    /// such windows.
    pub hide_console_window: bool,
}

/// Whether `command` is run by the bundled `bun`.
pub open spec fn runs_bun(command: Seq<char>, runtimes: BundledRuntimes) -> bool {
    command == "npx"@ && runtimes.can_override_npx
}

/// Whether `command` is run by the bundled `uv`.
pub open spec fn runs_uv(command: Seq<char>, runtimes: BundledRuntimes) -> bool {
    command == "uvx"@ && runtimes.can_override_uvx
}

/// The program that is started for `command`.
pub open spec fn planned_program(command: Seq<char>, runtimes: BundledRuntimes) -> Seq<char> {
    if runs_uv(command, runtimes) {
        runtimes.uv_path@
    } else if runs_bun(command, runtimes) {
        runtimes.bun_path@
    } else {
        command
    }
}

/// The arguments that stand before the configured ones.
pub open spec fn leading_args(command: Seq<char>, runtimes: BundledRuntimes) -> Seq<Seq<char>> {
    if runs_uv(command, runtimes) {
        seq!["tool"@, "run"@]
    } else if runs_bun(command, runtimes) {
        seq!["x"@]
    } else {
        Seq::empty()
    }
}

/// The environment entries that stand before the configured ones.
pub open spec fn leading_envs(command: Seq<char>, runtimes: BundledRuntimes) -> Seq<
    (Seq<char>, Seq<char>),
> {
    if runs_uv(command, runtimes) {
        seq![("UV_CACHE_DIR"@, runtimes.uvx_cache_dir@)]
    } else if runs_bun(command, runtimes) {
        seq![("BUN_INSTALL"@, runtimes.npx_cache_dir@)]
    } else {
        Seq::empty()
    }
}

/// Plans the child process of a local server. `npx` is run by the bundled
/// `bun` as `bun x`, and `uvx` by the bundled `uv` as `uv tool run`, each with
/// its own cache directory, where the host allows it. Of the configured
/// arguments and environment, those that are strings are passed on. Every
/// child has its error output piped, is killed when its handle is dropped,
/// and gets no console window.
pub fn plan_command(config: &McpServerConfig, runtimes: &BundledRuntimes) -> (plan: CommandPlan)
    ensures
        plan.pipe_stderr,
        plan.kill_on_drop,
        plan.hide_console_window,
        plan.program@ == planned_program(config.command@, *runtimes),
        texts_view(plan.args@) == leading_args(config.command@, *runtimes) + text_items(
            config.args@,
        ),
        pairs_view(plan.envs@) == leading_envs(config.command@, *runtimes) + text_entries(
            object_entries(config.envs),
        ),
{
    let mut program = config.command.clone();
    let mut args: Vec<String> = Vec::new();
    let mut envs: Vec<(String, String)> = Vec::new();
    proof {
        reveal_strlit("npx");
        reveal_strlit("uvx");
    }
    if same_text(config.command.as_str(), "npx") && runtimes.can_override_npx {
        program = runtimes.bun_path.clone();
        args.push("x".to_owned());
        envs.push(("BUN_INSTALL".to_owned(), runtimes.npx_cache_dir.clone()));
    }
    if same_text(config.command.as_str(), "uvx") && runtimes.can_override_uvx {
        program = runtimes.uv_path.clone();
        args = Vec::new();
        args.push("tool".to_owned());
        args.push("run".to_owned());
        envs = Vec::new();
        envs.push(("UV_CACHE_DIR".to_owned(), runtimes.uvx_cache_dir.clone()));
    }
    assert(texts_view(args@) =~= leading_args(config.command@, *runtimes));
    assert(pairs_view(envs@) =~= leading_envs(config.command@, *runtimes));
    let ghost lead_args = texts_view(args@);
    let ghost lead_envs = pairs_view(envs@);
    let mut i: usize = 0;
    assert(config.args@.subrange(0, 0) =~= Seq::<Value>::empty());
    assert(texts_view(args@) =~= lead_args + text_items(config.args@.subrange(0, 0)));
    while i < config.args.len()
        invariant
            0 <= i <= config.args@.len(),
            texts_view(args@) == lead_args + text_items(config.args@.subrange(0, i as int)),
        decreases config.args@.len() - i,
    {
        let ghost before = args@;
        assert(config.args@.subrange(0, i + 1).drop_last() =~= config.args@.subrange(0, i as int));
        assert(config.args@.subrange(0, i + 1).last() == config.args@[i as int]);
        match config.args[i].as_str() {
            Some(text) => {
                args.push(text.to_owned());
                assert(texts_view(args@) =~= texts_view(before).push(text@));
            },
            None => {},
        }
        i = i + 1;
    }
    assert(config.args@.subrange(0, i as int) =~= config.args@);
    let mut configured = text_members(&config.envs);
    let ghost configured_view = pairs_view(configured@);
    envs.append(&mut configured);
    assert(pairs_view(envs@) =~= lead_envs + configured_view);
    CommandPlan {
        program,
        args,
        envs,
        pipe_stderr: true,
        kill_on_drop: true,
        hide_console_window: true,
    }
}

/// How a client of the supervisor introduces itself to a server.
#[derive(Debug, Clone, Copy, PartialEq, Eq)]
pub struct ClientIdentity {
    /// The name of the client.
    pub name: &'static str,
    /// Its version.
    pub version: &'static str,
}

/// The name under which a client of the given transport introduces itself;
/// none for a child process, whose client gives no identity of its own.
pub open spec fn client_name(kind: TransportKind) -> Option<Seq<char>> {
    match kind {
        TransportKind::Stdio => None,
        TransportKind::Sse => Some("Jan SSE Client"@),
        TransportKind::Http => Some("Jan Client"@),
    }
}

/// The identity of the client for a server of the given transport. Only the
/// client of a streamable-HTTP server announces that it can elicit input.
pub fn client_identity(kind: TransportKind) -> (r: Option<ClientIdentity>)
    ensures
        match r {
            Some(identity) => client_name(kind) == Some(identity.name@) && identity.version@
                == "0.0.1"@,
            None => client_name(kind) is None,
        },
{
    match kind {
        TransportKind::Stdio => None,
        TransportKind::Sse => Some(ClientIdentity { name: "Jan SSE Client", version: "0.0.1" }),
        TransportKind::Http => Some(ClientIdentity { name: "Jan Client", version: "0.0.1" }),
    }
}

/// Whether the client for a server of the given transport announces that it
/// can elicit input from the user.
pub fn announces_elicitation(kind: TransportKind) -> (b: bool)
    ensures
        b == (kind == TransportKind::Http),
{
    match kind {
        TransportKind::Http => true,
        _ => false,
    }
}

} // verus!

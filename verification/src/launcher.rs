//! The launch of one server, step by step.
//!
//! The launcher decides and keeps the books of the supervisor; its runner
//! probes ports, runs the orphan sweeper, spawns the child, connects the
//! client, waits out the verification window and reports back.

use vstd::prelude::*;
use core::time::Duration;
use serde_json::Value;
use crate::config::{
    bridge_port, command_args_readable, extract_command_args, guarded_port, reads_from,
};
use crate::error::McpError;
use crate::json::{json_object, object_entries};
use crate::launch::{
    declared_type, forwarded, forwarded_headers, leading_args, leading_envs, pairs_view,
    plan_command, planned_program, select_transport, text_entries, text_items, texts_view,
    transport_of, BundledRuntimes, CommandPlan, TransportKind,
};
use crate::models::McpServerConfig;
use crate::restart::RestartState;
use crate::supervisor::{RunningEntry, Supervisor, SupervisorView};

verus! {

/// Milliseconds that a local server must stay live after its start to count
/// as connected.
pub const VERIFICATION_WINDOW_MS: u64 = 500;

/// A remote server to connect to.
#[derive(Debug, PartialEq, Eq)]
pub struct RemoteTarget {
    /// The endpoint.
    pub url: String,
    /// The request headers, in order; a later one replaces an earlier one of
    /// the same name.
    pub headers: Vec<(String, String)>,
    /// The connect timeout; none means no limit.
    pub connect_timeout: Option<Duration>,
}

/// What the launcher waits for.
#[derive(Debug, Clone, Copy, PartialEq, Eq, Structural)]
pub enum LaunchPhase {
    /// The probe of the bridge port.
    AwaitPortProbe { port: u16 },
    /// The end of the orphan sweep of the bridge port.
    AwaitSweep { port: u16 },
    /// The start of the child process.
    AwaitSpawn,
    /// The connection of the client to the child process.
    AwaitChildConnect,
    /// The error output of a child process that did not connect.
    AwaitStderr,
    /// The end of the verification window.
    AwaitVerification,
    /// The start of the transport to a remote server.
    AwaitTransport,
    /// The connection of the client to a remote server.
    AwaitRemoteConnect,
    /// Nothing: the launch has finished.
    Finished,
}

/// What the runner reports. `C` is the connected client.
#[derive(Debug)]
pub enum LaunchEvent<C> {
    /// The port was probed.
    PortProbed { free: bool },
    /// The orphan sweeper finished.
    Swept { result: Result<bool, McpError> },
    /// The child process runs, with the given process identifier if it has
    /// one.
    Spawned { pid: Option<u32> },
    /// The child process could not be started.
    SpawnFailed { reason: String },
    /// The client is connected, at the given time in milliseconds since the
    /// epoch.
    Connected { client: C, now_ms: u64 },
    /// The client could not connect.
    ConnectFailed { reason: String },
    /// The error output of the child was read, or could not be.
    StderrRead { output: Option<String> },
    /// The verification window has passed.
    WindowPassed,
    /// The transport to the remote server is up.
    TransportStarted,
    /// The transport to the remote server could not be started.
    TransportFailed { reason: String },
}

/// What a launch that succeeded leaves to do.
#[derive(Debug, Clone, Copy, PartialEq, Eq, Structural)]
pub struct LaunchSuccess {
    /// The port for which a lock file is written now; a failure to write it
    /// is no more than a warning.
    pub write_lock: Option<u16>,
    /// The process that the lock file names.
    pub pid: Option<u32>,
    /// Whether the update of the server is announced to the user interface:
    /// it always is.
    pub emit_update: bool,
}

/// What the launcher asks its runner to do.
#[derive(Debug, PartialEq, Eq)]
pub enum LaunchAction<C> {
    /// Probe whether the port is free.
    ProbePort { port: u16 },
    /// Run the orphan sweeper on the port.
    Sweep { port: u16 },
    /// Start the child process.
    Spawn { plan: CommandPlan },
    /// Connect a client over the standard input and output of the child.
    ConnectChild,
    /// Read the error output of the child to its end.
    ReadStderr,
    /// Wait for the given milliseconds. An entry that the new one displaced
    /// is handed along, to be dropped.
    WaitWindow { millis: u64, displaced: Option<RunningEntry<C>> },
    /// Start the transport over server-sent events.
    StartTransport { endpoint: RemoteTarget },
    /// Connect a client: over the transport that was started, or, with a
    /// target, over streamable HTTP with the elicitation bridge attached.
    ConnectRemote { target: Option<RemoteTarget> },
    /// The launch has finished. An entry that the new one displaced is handed
    /// along, to be dropped.
    Finish { result: Result<LaunchSuccess, McpError>, displaced: Option<RunningEntry<C>> },
}

/// The launch of one server.
#[derive(Debug)]
pub struct Launcher {
    /// The name of the server.
    pub name: String,
    /// How the server is reached.
    pub kind: TransportKind,
    /// The port that a lock file guards for the server.
    pub lock_port: Option<u16>,
    /// The process of the child, once it runs.
    pub pid: Option<u32>,
    /// The child to start, until it is handed to the runner.
    pub plan: Option<CommandPlan>,
    /// What the launcher waits for.
    pub phase: LaunchPhase,
}

/// `plan` is the child that `config` asks for, given the bundled runtimes.
pub open spec fn plan_matches(
    plan: CommandPlan,
    config: McpServerConfig,
    runtimes: BundledRuntimes,
) -> bool {
    &&& plan.pipe_stderr
    &&& plan.kill_on_drop
    &&& plan.hide_console_window
    &&& plan.program@ == planned_program(config.command@, runtimes)
    &&& texts_view(plan.args@) == leading_args(config.command@, runtimes) + text_items(
        config.args@,
    )
    &&& pairs_view(plan.envs@) == leading_envs(config.command@, runtimes) + text_entries(
        object_entries(config.envs),
    )
}

/// `target` is the remote server that `config` names.
pub open spec fn target_matches(target: RemoteTarget, config: McpServerConfig) -> bool {
    &&& config.url matches Some(url)
    &&& target.url@ == url@
    &&& pairs_view(target.headers@) == forwarded(object_entries(config.headers))
    &&& target.connect_timeout == config.timeout
}

/// The launcher `launcher` and its first action `action` are those of the
/// launch of the server `name` with `config`.
pub open spec fn begins<C>(
    launcher: Launcher,
    action: LaunchAction<C>,
    name: Seq<char>,
    config: McpServerConfig,
    runtimes: BundledRuntimes,
) -> bool {
    let kind = transport_of(declared_type(config), config.url is Some);
    &&& launcher.name@ == name
    &&& launcher.kind == kind
    &&& launcher.pid is None
    &&& match kind {
        TransportKind::Http => {
            &&& launcher.phase == LaunchPhase::AwaitRemoteConnect
            &&& launcher.lock_port is None
            &&& launcher.plan is None
            &&& action matches LaunchAction::ConnectRemote { target: Some(target) }
            &&& target_matches(target, config)
        },
        TransportKind::Sse => {
            &&& launcher.phase == LaunchPhase::AwaitTransport
            &&& launcher.lock_port is None
            &&& launcher.plan is None
            &&& action matches LaunchAction::StartTransport { endpoint }
            &&& target_matches(endpoint, config)
        },
        TransportKind::Stdio => {
            &&& launcher.lock_port == guarded_port(name, config.envs)
            &&& match launcher.lock_port {
                Some(port) => {
                    &&& launcher.phase == LaunchPhase::AwaitPortProbe { port }
                    &&& launcher.plan matches Some(plan)
                    &&& plan_matches(plan, config, runtimes)
                    &&& action == LaunchAction::<C>::ProbePort { port }
                },
                None => {
                    &&& launcher.phase == LaunchPhase::AwaitSpawn
                    &&& launcher.plan is None
                    &&& action matches LaunchAction::Spawn { plan }
                    &&& plan_matches(plan, config, runtimes)
                },
            }
        },
    }
}

impl Launcher {
    /// While the launcher waits for the port to be probed or swept, it holds
    /// the child to start.
    pub open spec fn wf(self) -> bool {
        match self.phase {
            LaunchPhase::AwaitPortProbe { port } => self.plan is Some,
            LaunchPhase::AwaitSweep { port } => self.plan is Some,
            _ => true,
        }
    }

    /// The launcher in another phase.
    pub open spec fn at(self, phase: LaunchPhase) -> Launcher {
        Launcher { phase, ..self }
    }

    /// The launcher after it has handed out the child to start.
    pub open spec fn spawning(self) -> Launcher {
        Launcher { phase: LaunchPhase::AwaitSpawn, plan: None, ..self }
    }

    /// The end of the launch with the error `e`.
    pub open spec fn fails<C>(self, state: SupervisorView<C>, e: McpError) -> (
        Launcher,
        SupervisorView<C>,
        Option<LaunchAction<C>>,
    ) {
        (
            self.at(LaunchPhase::Finished),
            state,
            Some(LaunchAction::Finish { result: Err(e), displaced: None }),
        )
    }

    /// The state after the client `client` of this launch was registered at
    /// `now_ms`.
    pub open spec fn registered<C>(self, state: SupervisorView<C>, client: C, now_ms: u64)
        -> SupervisorView<C> {
        SupervisorView {
            servers: state.servers.insert(
                self.name@,
                RunningEntry {
                    client,
                    kind: self.kind,
                    started_at: now_ms,
                    pid: self.pid,
                    port: self.lock_port,
                    verified: false,
                },
            ),
            restart: state.restart.insert(self.name@, state.restart_state(self.name@)),
            ..state
        }
    }

    /// The state after the live server of this launch was verified.
    pub open spec fn confirmed<C>(self, state: SupervisorView<C>) -> SupervisorView<C> {
        SupervisorView {
            servers: state.servers.insert(
                self.name@,
                RunningEntry { verified: true, ..state.servers[self.name@] },
            ),
            restart: state.restart.insert(
                self.name@,
                RestartState { ever_connected: true, ..state.restart[self.name@] },
            ),
            ..state
        }
    }

    /// The entry that a registration under the name of this launch displaces.
    pub open spec fn displaced_from<C>(self, state: SupervisorView<C>) -> Option<RunningEntry<C>> {
        if state.servers.contains_key(self.name@) {
            Some(state.servers[self.name@])
        } else {
            None
        }
    }

    /// The launcher, the state and the action that follow `event`; no action
    /// and no change where the event is not what the launcher waits for.
    pub open spec fn step_spec<C>(self, state: SupervisorView<C>, event: LaunchEvent<C>) -> (
        Launcher,
        SupervisorView<C>,
        Option<LaunchAction<C>>,
    ) {
        match (self.phase, event) {
            (LaunchPhase::AwaitPortProbe { port }, LaunchEvent::PortProbed { free }) => if free {
                (self.spawning(), state, Some(LaunchAction::Spawn { plan: self.plan.unwrap() }))
            } else {
                (
                    self.at(LaunchPhase::AwaitSweep { port }),
                    state,
                    Some(LaunchAction::Sweep { port }),
                )
            },
            (LaunchPhase::AwaitSweep { port }, LaunchEvent::Swept { result }) => match result {
                Ok(reclaimed) => if reclaimed {
                    (self.spawning(), state, Some(LaunchAction::Spawn { plan: self.plan.unwrap() }))
                } else {
                    self.fails(state, McpError::PortInUse { port })
                },
                Err(e) => self.fails(state, e),
            },
            (LaunchPhase::AwaitSpawn, LaunchEvent::Spawned { pid }) => (
                Launcher { phase: LaunchPhase::AwaitChildConnect, pid, ..self },
                match pid {
                    Some(p) => SupervisorView { pids: state.pids.insert(self.name@, p), ..state },
                    None => state,
                },
                Some(LaunchAction::ConnectChild),
            ),
            (LaunchPhase::AwaitSpawn, LaunchEvent::SpawnFailed { reason }) => self.fails(
                state,
                McpError::SpawnFailed { name: self.name, reason },
            ),
            (LaunchPhase::AwaitChildConnect, LaunchEvent::Connected { client, now_ms }) => (
                self.at(LaunchPhase::AwaitVerification),
                self.registered(state, client, now_ms),
                Some(
                    LaunchAction::WaitWindow {
                        millis: VERIFICATION_WINDOW_MS,
                        displaced: self.displaced_from(state),
                    },
                ),
            ),
            (LaunchPhase::AwaitChildConnect, LaunchEvent::ConnectFailed { reason }) => (
                self.at(LaunchPhase::AwaitStderr),
                state,
                Some(LaunchAction::ReadStderr),
            ),
            (LaunchPhase::AwaitStderr, LaunchEvent::StderrRead { output }) => match output {
                Some(stderr) => self.fails(
                    state,
                    McpError::StartFailed { name: self.name, stderr },
                ),
                None => self.fails(state, McpError::StderrUnreadable { name: self.name }),
            },
            (LaunchPhase::AwaitVerification, LaunchEvent::WindowPassed) => if state.servers.contains_key(
                self.name@,
            ) {
                (
                    self.at(LaunchPhase::Finished),
                    self.confirmed(state),
                    Some(
                        LaunchAction::Finish {
                            result: Ok(LaunchSuccess {
                                write_lock: self.lock_port,
                                pid: self.pid,
                                emit_update: true,
                            }),
                            displaced: None,
                        },
                    ),
                )
            } else {
                self.fails(state, McpError::QuitImmediately { name: self.name })
            },
            (LaunchPhase::AwaitTransport, LaunchEvent::TransportStarted) => (
                self.at(LaunchPhase::AwaitRemoteConnect),
                state,
                Some(LaunchAction::ConnectRemote { target: None }),
            ),
            (LaunchPhase::AwaitTransport, LaunchEvent::TransportFailed { reason }) => self.fails(
                state,
                McpError::TransportStartFailed { reason },
            ),
            (LaunchPhase::AwaitRemoteConnect, LaunchEvent::Connected { client, now_ms }) => (
                self.at(LaunchPhase::Finished),
                self.confirmed(self.registered(state, client, now_ms)),
                Some(
                    LaunchAction::Finish {
                        result: Ok(LaunchSuccess { write_lock: None, pid: None, emit_update: true }),
                        displaced: self.displaced_from(state),
                    },
                ),
            ),
            (LaunchPhase::AwaitRemoteConnect, LaunchEvent::ConnectFailed { reason }) => self.fails(
                state,
                McpError::ConnectFailed { reason },
            ),
            _ => (self, state, None),
        }
    }

    /// Begins the launch of the server `name` with what was read from its
    /// configuration. A remote server is connected to at once; for a local
    /// one the child process is planned, and where a lock file guards its
    /// port, the port is probed first.
    pub fn start<C>(name: &str, config: &McpServerConfig, runtimes: &BundledRuntimes) -> (r: (
        Launcher,
        LaunchAction<C>,
    ))
        ensures
            begins(r.0, r.1, name@, *config, *runtimes),
            r.0.wf(),
    {
        let kind = select_transport(config);
        match kind {
            TransportKind::Http => {
                let target = remote_target(config);
                (
                    Launcher {
                        name: name.to_owned(),
                        kind,
                        lock_port: None,
                        pid: None,
                        plan: None,
                        phase: LaunchPhase::AwaitRemoteConnect,
                    },
                    LaunchAction::ConnectRemote { target: Some(target) },
                )
            },
            TransportKind::Sse => {
                let endpoint = remote_target(config);
                (
                    Launcher {
                        name: name.to_owned(),
                        kind,
                        lock_port: None,
                        pid: None,
                        plan: None,
                        phase: LaunchPhase::AwaitTransport,
                    },
                    LaunchAction::StartTransport { endpoint },
                )
            },
            TransportKind::Stdio => {
                let plan = plan_command(config, runtimes);
                match bridge_port(name, &config.envs) {
                    Some(port) => (
                        Launcher {
                            name: name.to_owned(),
                            kind,
                            lock_port: Some(port),
                            pid: None,
                            plan: Some(plan),
                            phase: LaunchPhase::AwaitPortProbe { port },
                        },
                        LaunchAction::ProbePort { port },
                    ),
                    None => (
                        Launcher {
                            name: name.to_owned(),
                            kind,
                            lock_port: None,
                            pid: None,
                            plan: None,
                            phase: LaunchPhase::AwaitSpawn,
                        },
                        LaunchAction::Spawn { plan },
                    ),
                }
            },
        }
    }

    /// Takes in what the runner reports, keeps the books of the supervisor,
    /// and says what to do next. An event that the launcher does not wait for
    /// changes nothing and asks for nothing.
    pub fn step<C>(&mut self, supervisor: &mut Supervisor<C>, event: LaunchEvent<C>) -> (action:
        Option<LaunchAction<C>>)
        requires
            old(self).wf(),
            old(supervisor).wf(),
        ensures
            final(self).wf(),
            final(supervisor).wf(),
            (*final(self), final(supervisor)@, action) == old(self).step_spec(
                old(supervisor)@,
                event,
            ),
    {
        match self.phase {
            LaunchPhase::AwaitPortProbe { port } => match event {
                LaunchEvent::PortProbed { free } => {
                    if free {
                        self.phase = LaunchPhase::AwaitSpawn;
                        let plan = self.plan.take().unwrap();
                        Some(LaunchAction::Spawn { plan })
                    } else {
                        self.phase = LaunchPhase::AwaitSweep { port };
                        Some(LaunchAction::Sweep { port })
                    }
                },
                _ => None,
            },
            LaunchPhase::AwaitSweep { port } => match event {
                LaunchEvent::Swept { result } => match result {
                    Ok(reclaimed) => {
                        if reclaimed {
                            self.phase = LaunchPhase::AwaitSpawn;
                            let plan = self.plan.take().unwrap();
                            Some(LaunchAction::Spawn { plan })
                        } else {
                            self.phase = LaunchPhase::Finished;
                            Some(
                                LaunchAction::Finish {
                                    result: Err(McpError::PortInUse { port }),
                                    displaced: None,
                                },
                            )
                        }
                    },
                    Err(e) => {
                        self.phase = LaunchPhase::Finished;
                        Some(LaunchAction::Finish { result: Err(e), displaced: None })
                    },
                },
                _ => None,
            },
            LaunchPhase::AwaitSpawn => match event {
                LaunchEvent::Spawned { pid } => {
                    self.phase = LaunchPhase::AwaitChildConnect;
                    self.pid = pid;
                    match pid {
                        Some(p) => {
                            supervisor.record_pid(self.name.as_str(), p);
                        },
                        None => {},
                    }
                    Some(LaunchAction::ConnectChild)
                },
                LaunchEvent::SpawnFailed { reason } => {
                    self.phase = LaunchPhase::Finished;
                    Some(
                        LaunchAction::Finish {
                            result: Err(McpError::SpawnFailed { name: self.name.clone(), reason }),
                            displaced: None,
                        },
                    )
                },
                _ => None,
            },
            LaunchPhase::AwaitChildConnect => match event {
                LaunchEvent::Connected { client, now_ms } => {
                    self.phase = LaunchPhase::AwaitVerification;
                    let displaced = supervisor.register(
                        self.name.as_str(),
                        client,
                        self.kind,
                        self.pid,
                        self.lock_port,
                        now_ms,
                    );
                    Some(LaunchAction::WaitWindow { millis: VERIFICATION_WINDOW_MS, displaced })
                },
                LaunchEvent::ConnectFailed { reason } => {
                    self.phase = LaunchPhase::AwaitStderr;
                    Some(LaunchAction::ReadStderr)
                },
                _ => None,
            },
            LaunchPhase::AwaitStderr => match event {
                LaunchEvent::StderrRead { output } => {
                    self.phase = LaunchPhase::Finished;
                    match output {
                        Some(stderr) => Some(
                            LaunchAction::Finish {
                                result: Err(
                                    McpError::StartFailed { name: self.name.clone(), stderr },
                                ),
                                displaced: None,
                            },
                        ),
                        None => Some(
                            LaunchAction::Finish {
                                result: Err(McpError::StderrUnreadable { name: self.name.clone() }),
                                displaced: None,
                            },
                        ),
                    }
                },
                _ => None,
            },
            LaunchPhase::AwaitVerification => match event {
                LaunchEvent::WindowPassed => {
                    self.phase = LaunchPhase::Finished;
                    if supervisor.confirm(self.name.as_str()) {
                        Some(
                            LaunchAction::Finish {
                                result: Ok(
                                    LaunchSuccess {
                                write_lock: self.lock_port,
                                pid: self.pid,
                                emit_update: true,
                            },
                                ),
                                displaced: None,
                            },
                        )
                    } else {
                        Some(
                            LaunchAction::Finish {
                                result: Err(McpError::QuitImmediately { name: self.name.clone() }),
                                displaced: None,
                            },
                        )
                    }
                },
                _ => None,
            },
            LaunchPhase::AwaitTransport => match event {
                LaunchEvent::TransportStarted => {
                    self.phase = LaunchPhase::AwaitRemoteConnect;
                    Some(LaunchAction::ConnectRemote { target: None })
                },
                LaunchEvent::TransportFailed { reason } => {
                    self.phase = LaunchPhase::Finished;
                    Some(
                        LaunchAction::Finish {
                            result: Err(McpError::TransportStartFailed { reason }),
                            displaced: None,
                        },
                    )
                },
                _ => None,
            },
            LaunchPhase::AwaitRemoteConnect => match event {
                LaunchEvent::Connected { client, now_ms } => {
                    self.phase = LaunchPhase::Finished;
                    let displaced = supervisor.register(
                        self.name.as_str(),
                        client,
                        self.kind,
                        self.pid,
                        self.lock_port,
                        now_ms,
                    );
                    supervisor.confirm(self.name.as_str());
                    Some(
                        LaunchAction::Finish {
                            result: Ok(LaunchSuccess { write_lock: None, pid: None, emit_update: true }),
                            displaced,
                        },
                    )
                },
                LaunchEvent::ConnectFailed { reason } => {
                    self.phase = LaunchPhase::Finished;
                    Some(
                        LaunchAction::Finish {
                            result: Err(McpError::ConnectFailed { reason }),
                            displaced: None,
                        },
                    )
                },
                _ => None,
            },
            LaunchPhase::Finished => None,
        }
    }
}

/// The remote server that `config` names: its URL, the headers that are sent,
/// and the connect timeout.
fn remote_target(config: &McpServerConfig) -> (target: RemoteTarget)
    requires
        config.url is Some,
    ensures
        target_matches(target, *config),
{
    let url = match &config.url {
        Some(url) => url.clone(),
        None => String::new(),
    };
    RemoteTarget {
        url,
        headers: forwarded_headers(&config.headers),
        connect_timeout: config.timeout,
    }
}

/// Begins the launch of the server `name` from its configuration. A
/// configuration that cannot be read ends the launch before it begins.
pub fn launch<C>(name: &str, config: &Value, runtimes: &BundledRuntimes) -> (r: Result<
    (Launcher, LaunchAction<C>),
    McpError,
>)
    ensures
        match r {
            Ok((launcher, action)) => command_args_readable(*config) && launcher.wf() && exists|
                cfg: McpServerConfig,
            |
                reads_from(cfg, json_object(*config).unwrap()) && #[trigger] begins(
                    launcher,
                    action,
                    name@,
                    cfg,
                    *runtimes,
                ),
            Err(McpError::BadServerConfig { name: named }) => !command_args_readable(*config)
                && named@ == name@,
            Err(_) => false,
        },
{
    match extract_command_args(config) {
        Some(cfg) => {
            let (launcher, action) = Launcher::start(name, &cfg, runtimes);
            assert(begins(launcher, action, name@, cfg, *runtimes));
            Ok((launcher, action))
        },
        None => Err(McpError::BadServerConfig { name: name.to_owned() }),
    }
}

/// Whether `action` says that the launch succeeded.
pub open spec fn finished_ok<C>(action: Option<LaunchAction<C>>) -> bool {
    match action {
        Some(LaunchAction::Finish { result: Ok(_), displaced }) => true,
        _ => false,
    }
}

/// A launch that finishes with success leaves its server live, verified and
/// marked as connected at some time; and whatever a step does, the state
/// keeps its invariants and holds at most one entry for the name.
pub proof fn lemma_launch_success_registers<C>(
    launcher: Launcher,
    state: SupervisorView<C>,
    event: LaunchEvent<C>,
)
    requires
        state.consistent(),
    ensures
        launcher.step_spec(state, event).1.consistent(),
        finished_ok(launcher.step_spec(state, event).2) ==> launcher.step_spec(
            state,
            event,
        ).1.connected_now(launcher.name@) && launcher.step_spec(state, event).1.ever_connected(
            launcher.name@,
        ),
{
    let after = launcher.step_spec(state, event).1;
    assert forall|n: Seq<char>| after.connected_now(n) implies after.ever_connected(n) by {
        if n != launcher.name@ {
            assert(state.servers.contains_key(n));
            assert(state.connected_now(n));
        }
    }
    assert forall|n: Seq<char>| after.servers.contains_key(n) implies after.restart.contains_key(
        n,
    ) by {
        if n != launcher.name@ {
            assert(state.servers.contains_key(n));
        }
    }
    assert forall|n: Seq<char>| after.active.contains_key(n) implies after.restart.contains_key(
        n,
    ) by {
        assert(state.active.contains_key(n));
    }
}

} // verus!

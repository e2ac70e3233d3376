//! The shared state of the supervisor: which servers are live, what the
//! restart engine remembers of each, and which configurations are active.
//!
//! The state holds the client of each live server without looking into it; the
//! embedding application decides what a client is.

use vstd::prelude::*;
use serde_json::Value;
use crate::config::{bridge_port_of_config, guarded_port_of_config};
use crate::launch::TransportKind;
use crate::monitor::QuitReason;
use crate::restart::{AttemptPlan, LoopDecision, RestartState};
use crate::settings::McpSettings;
use crate::table::NameTable;

verus! {

/// One live server.
#[derive(Debug, PartialEq, Eq)]
pub struct RunningEntry<C> {
    /// The connected client.
    pub client: C,
    /// How the client talks to the server.
    pub kind: TransportKind,
    /// When the server was registered, in milliseconds since the epoch.
    pub started_at: u64,
    /// The process of a local server.
    pub pid: Option<u32>,
    /// The port that a lock file guards for the server.
    pub port: Option<u16>,
    /// Whether the start of the server has passed verification.
    pub verified: bool,
}

/// The state of the supervisor as a value.
pub struct SupervisorView<C> {
    /// The live servers by name.
    pub servers: Map<Seq<char>, RunningEntry<C>>,
    /// What the restart engine remembers, by name.
    pub restart: Map<Seq<char>, RestartState>,
    /// The active configurations by name.
    pub active: Map<Seq<char>, Value>,
    /// The processes of local servers by name.
    pub pids: Map<Seq<char>, u32>,
    /// The settings.
    pub settings: McpSettings,
    /// Whether a shutdown is under way.
    pub shutting_down: bool,
}

impl<C> SupervisorView<C> {
    /// The server `name` is live and verified.
    pub open spec fn connected_now(self, name: Seq<char>) -> bool {
        self.servers.contains_key(name) && self.servers[name].verified
    }

    /// A start of the server `name` has passed verification at some time.
    pub open spec fn ever_connected(self, name: Seq<char>) -> bool {
        self.restart.contains_key(name) && self.restart[name].ever_connected
    }

    /// The invariants of the state: a server that is connected now has been
    /// connected at some time, and the restart engine knows every server
    /// that is live or active.
    pub open spec fn consistent(self) -> bool {
        &&& forall|name: Seq<char>|
            #![trigger self.servers.contains_key(name)]
            self.connected_now(name) ==> self.ever_connected(name)
        &&& forall|name: Seq<char>|
            #![trigger self.servers.contains_key(name)]
            self.servers.contains_key(name) ==> self.restart.contains_key(name)
        &&& forall|name: Seq<char>|
            #![trigger self.active.contains_key(name)]
            self.active.contains_key(name) ==> self.restart.contains_key(name)
    }

    /// What the restart engine remembers of `name`; a server that was never
    /// started counts as fresh.
    pub open spec fn restart_state(self, name: Seq<char>) -> RestartState {
        if self.restart.contains_key(name) {
            self.restart[name]
        } else {
            RestartState::fresh()
        }
    }
}

/// The shared state of the supervisor.
pub struct Supervisor<C> {
    servers: NameTable<RunningEntry<C>>,
    restart: NameTable<RestartState>,
    active: NameTable<Value>,
    pids: NameTable<u32>,
    settings: McpSettings,
    shutdown_in_progress: bool,
}

impl<C> Supervisor<C> {
    /// The state as a value.
    pub closed spec fn view(&self) -> SupervisorView<C> {
        SupervisorView {
            servers: self.servers@,
            restart: self.restart@,
            active: self.active@,
            pids: self.pids@,
            settings: self.settings,
            shutting_down: self.shutdown_in_progress,
        }
    }

    /// The state is well formed: no table holds a name twice, and the
    /// invariants hold.
    pub closed spec fn wf(&self) -> bool {
        &&& self.servers.wf()
        &&& self.restart.wf()
        &&& self.active.wf()
        &&& self.pids.wf()
        &&& self@.consistent()
    }

    /// The state of a supervisor that has started nothing.
    pub fn new(settings: McpSettings) -> (s: Self)
        ensures
            s.wf(),
            s@ == (SupervisorView::<C> {
                servers: Map::empty(),
                restart: Map::empty(),
                active: Map::empty(),
                pids: Map::empty(),
                settings,
                shutting_down: false,
            }),
    {
        Supervisor {
            servers: NameTable::new(),
            restart: NameTable::new(),
            active: NameTable::new(),
            pids: NameTable::new(),
            settings,
            shutdown_in_progress: false,
        }
    }

    /// The settings in force.
    pub fn settings(&self) -> (s: McpSettings)
        ensures
            s == self@.settings,
    {
        self.settings
    }

    /// Puts new settings in force.
    pub fn set_settings(&mut self, settings: McpSettings)
        requires
            old(self).wf(),
        ensures
            final(self).wf(),
            final(self)@ == (SupervisorView { settings, ..old(self)@ }),
    {
        self.settings = settings;
    }

    /// Notes that the server `name` is being started with `config`: the
    /// configuration joins the active set, and the restart engine starts to
    /// remember the server if it did not before.
    pub fn begin_start(&mut self, name: &str, config: &Value)
        requires
            old(self).wf(),
        ensures
            final(self).wf(),
            final(self)@ == (SupervisorView {
                active: old(self)@.active.insert(name@, *config),
                restart: old(self)@.restart.insert(name@, old(self)@.restart_state(name@)),
                ..old(self)@
            }),
    {
        crate::config::store_active_server_config(&mut self.active, name, config);
        let ghost before = self.restart@;
        if !self.restart.contains_key(name) {
            self.restart.insert(name.to_owned(), RestartState::new());
        } else {
            assert(self.restart@ =~= before.insert(name@, before[name@]));
        }
        proof {
            let was = old(self)@;
            let now = self@;
            assert(now.servers == was.servers);
            assert forall|n: Seq<char>| now.connected_now(n) implies now.ever_connected(n) by {
                assert(was.servers.contains_key(n));
            }
            assert forall|n: Seq<char>| now.servers.contains_key(n) implies now.restart.contains_key(
                n,
            ) by {
                assert(was.servers.contains_key(n));
            }
            assert forall|n: Seq<char>| now.active.contains_key(n) implies now.restart.contains_key(
                n,
            ) by {
                if n != name@ {
                    assert(was.active.contains_key(n));
                }
            }
        }
    }

    /// Whether the server `name` is live.
    pub fn is_running(&self, name: &str) -> (b: bool)
        ensures
            b == self@.servers.contains_key(name@),
    {
        self.servers.contains_key(name)
    }

    /// The entry of the live server `name`.
    pub fn entry(&self, name: &str) -> (r: Option<&RunningEntry<C>>)
        requires
            self.wf(),
        ensures
            match r {
                Some(e) => self@.servers.contains_key(name@) && *e == self@.servers[name@],
                None => !self@.servers.contains_key(name@),
            },
    {
        self.servers.get(name)
    }

    /// How many servers are live.
    pub fn running_count(&self) -> (n: usize)
        requires
            self.wf(),
        ensures
            n == self@.servers.dom().len(),
            n == self.server_entries().len(),
    {
        proof {
            crate::table::lemma_domain_size(self.servers);
        }
        self.servers.len()
    }

    /// What the restart engine remembers of `name`.
    pub fn restart_state(&self, name: &str) -> (s: RestartState)
        requires
            self.wf(),
        ensures
            s == self@.restart_state(name@),
    {
        match self.restart.get(name) {
            Some(s) => *s,
            None => RestartState::new(),
        }
    }

    /// Notes the process of the local server `name`.
    pub fn record_pid(&mut self, name: &str, pid: u32)
        requires
            old(self).wf(),
        ensures
            final(self).wf(),
            final(self)@ == (SupervisorView {
                pids: old(self)@.pids.insert(name@, pid),
                ..old(self)@
            }),
    {
        self.pids.insert(name.to_owned(), pid);
        assert(self@.servers == old(self)@.servers);
        assert(self@.restart == old(self)@.restart);
        assert(self@.active == old(self)@.active);
    }

    /// The process noted for the local server `name`.
    pub fn pid_of(&self, name: &str) -> (r: Option<u32>)
        requires
            self.wf(),
        ensures
            r == (if self@.pids.contains_key(name@) {
                Some(self@.pids[name@])
            } else {
                None
            }),
    {
        match self.pids.get(name) {
            Some(p) => Some(*p),
            None => None,
        }
    }

    /// Registers the connected client of the server `name` as live, not yet
    /// verified. An entry that the name had before is replaced and handed
    /// back: a name never has two entries.
    pub fn register(
        &mut self,
        name: &str,
        client: C,
        kind: TransportKind,
        pid: Option<u32>,
        port: Option<u16>,
        started_at: u64,
    ) -> (displaced: Option<RunningEntry<C>>)
        requires
            old(self).wf(),
        ensures
            final(self).wf(),
            final(self)@ == (SupervisorView {
                servers: old(self)@.servers.insert(
                    name@,
                    RunningEntry { client, kind, started_at, pid, port, verified: false },
                ),
                restart: old(self)@.restart.insert(name@, old(self)@.restart_state(name@)),
                ..old(self)@
            }),
            displaced == (if old(self)@.servers.contains_key(name@) {
                Some(old(self)@.servers[name@])
            } else {
                None
            }),
    {
        let ghost before = self.restart@;
        if !self.restart.contains_key(name) {
            self.restart.insert(name.to_owned(), RestartState::new());
        } else {
            assert(self.restart@ =~= before.insert(name@, before[name@]));
        }
        let entry = RunningEntry { client, kind, started_at, pid, port, verified: false };
        let displaced = self.servers.insert(name.to_owned(), entry);
        proof {
            let was = old(self)@;
            let now = self@;
            assert(now.active == was.active);
            assert forall|n: Seq<char>| now.connected_now(n) implies now.ever_connected(n) by {
                if n != name@ {
                    assert(was.servers.contains_key(n));
                    assert(was.connected_now(n));
                }
            }
            assert forall|n: Seq<char>| now.servers.contains_key(n) implies now.restart.contains_key(
                n,
            ) by {
                if n != name@ {
                    assert(was.servers.contains_key(n));
                }
            }
            assert forall|n: Seq<char>| now.active.contains_key(n) implies now.restart.contains_key(
                n,
            ) by {
                assert(was.active.contains_key(n));
            }
        }
        displaced
    }

    /// The verification of the server `name`, after its window has passed. A
    /// server that is still live is marked as verified and as connected at
    /// some time; for a server that is gone nothing changes.
    pub fn confirm(&mut self, name: &str) -> (still_running: bool)
        requires
            old(self).wf(),
        ensures
            final(self).wf(),
            still_running == old(self)@.servers.contains_key(name@),
            still_running ==> final(self)@ == (SupervisorView {
                servers: old(self)@.servers.insert(
                    name@,
                    RunningEntry { verified: true, ..old(self)@.servers[name@] },
                ),
                restart: old(self)@.restart.insert(
                    name@,
                    RestartState { ever_connected: true, ..old(self)@.restart[name@] },
                ),
                ..old(self)@
            }),
            !still_running ==> final(self)@ == old(self)@,
    {
        match self.servers.remove(name) {
            Some(entry) => {
                let verified = RunningEntry { verified: true, ..entry };
                self.servers.insert(name.to_owned(), verified);
                assert(self.servers@ =~= old(self)@.servers.insert(name@, verified));
                let mut state = self.restart_state_value(name);
                state.mark_connected();
                self.restart.insert(name.to_owned(), state);
                true
            },
            None => {
                assert(self.servers@ =~= old(self)@.servers);
                false
            },
        }
    }

    fn restart_state_value(&self, name: &str) -> (s: RestartState)
        requires
            self.restart.wf(),
        ensures
            s == self@.restart_state(name@),
    {
        match self.restart.get(name) {
            Some(s) => *s,
            None => RestartState::new(),
        }
    }

    /// Marks the server `name` as connected at some time, whether or not it
    /// is live.
    pub fn mark_connected(&mut self, name: &str)
        requires
            old(self).wf(),
        ensures
            final(self).wf(),
            final(self)@ == (SupervisorView {
                restart: old(self)@.restart.insert(
                    name@,
                    RestartState { ever_connected: true, ..old(self)@.restart_state(name@) },
                ),
                ..old(self)@
            }),
    {
        let mut state = self.restart_state_value(name);
        state.mark_connected();
        self.restart.insert(name.to_owned(), state);
    }

    /// Takes the server `name` out of the live servers and hands its entry
    /// back, for its client to be cancelled.
    pub fn remove(&mut self, name: &str) -> (removed: Option<RunningEntry<C>>)
        requires
            old(self).wf(),
        ensures
            final(self).wf(),
            final(self)@ == (SupervisorView {
                servers: old(self)@.servers.remove(name@),
                ..old(self)@
            }),
            removed == (if old(self)@.servers.contains_key(name@) {
                Some(old(self)@.servers[name@])
            } else {
                None
            }),
    {
        let removed = self.servers.remove(name);
        proof {
            let was = old(self)@;
            let now = self@;
            assert(now.restart == was.restart);
            assert(now.active == was.active);
            assert forall|n: Seq<char>| now.connected_now(n) implies now.ever_connected(n) by {
                assert(was.servers.contains_key(n));
                assert(was.connected_now(n));
            }
            assert forall|n: Seq<char>| now.servers.contains_key(n) implies now.restart.contains_key(
                n,
            ) by {
                assert(was.servers.contains_key(n));
            }
        }
        removed
    }

    /// Starts a round of the restart loop of `name`: counts the attempt, and
    /// either gives up or says how long to wait before the launch.
    pub fn plan_restart(&mut self, name: &str, max_restarts: u32) -> (plan: AttemptPlan)
        requires
            old(self).wf(),
        ensures
            final(self).wf(),
            final(self)@ == (SupervisorView {
                restart: old(self)@.restart.insert(
                    name@,
                    old(self)@.restart_state(name@).counted(),
                ),
                ..old(self)@
            }),
            plan == old(self)@.restart_state(name@).plan_spec(max_restarts, old(self)@.settings),
    {
        let mut state = self.restart_state_value(name);
        let plan = state.plan_attempt(max_restarts, &self.settings);
        self.restart.insert(name.to_owned(), state);
        plan
    }

    /// Decides what follows a launch in the restart loop of `name`.
    pub fn after_restart_launch(&mut self, name: &str, launched: bool) -> (decision:
        LoopDecision)
        requires
            old(self).wf(),
        ensures
            final(self).wf(),
            final(self)@ == (SupervisorView {
                restart: old(self)@.restart.insert(
                    name@,
                    old(self)@.restart_state(name@).after_launch_state(launched),
                ),
                ..old(self)@
            }),
            decision == old(self)@.restart_state(name@).after_launch_spec(launched),
    {
        let mut state = self.restart_state_value(name);
        let decision = state.after_launch(launched);
        self.restart.insert(name.to_owned(), state);
        decision
    }

    /// Decides what follows the end of the monitor in the restart loop of
    /// `name`.
    pub fn after_restart_monitor(&self, name: &str, reason: QuitReason) -> (decision:
        LoopDecision)
        requires
            self.wf(),
        ensures
            decision == self@.restart_state(name@).after_monitor_spec(reason),
    {
        self.restart_state_value(name).after_monitor(reason)
    }

    /// The active configurations, to start each of them again.
    pub fn active_servers(&self) -> (r: Vec<(String, Value)>)
        requires
            self.wf(),
        ensures
            r@.len() == self@.active.dom().len(),
            forall|i: int|
                0 <= i < r@.len() ==> self@.active.contains_key((#[trigger] r@[i]).0@)
                    && self@.active[r@[i].0@] == r@[i].1,
            forall|i: int, j: int|
                0 <= i < j < r@.len() ==> (#[trigger] r@[i]).0@ != (#[trigger] r@[j]).0@,
    {
        let mut out: Vec<(String, Value)> = Vec::new();
        let mut i: usize = 0;
        proof {
            crate::table::lemma_domain_size(self.active);
        }
        while i < self.active.len()
            invariant
                self.active.wf(),
                0 <= i <= self.active.entries().len(),
                out@.len() == i,
                forall|k: int|
                    0 <= k < i ==> (#[trigger] out@[k]).0@ == self.active.entries()[k].0 && out@[k].1
                        == self.active.entries()[k].1,
            decreases self.active.entries().len() - i,
        {
            out.push((self.active.name_at(i).clone(), self.active.value_at(i).clone()));
            i = i + 1;
        }
        proof {
            assert forall|k: int| 0 <= k < out@.len() implies self@.active.contains_key(
                (#[trigger] out@[k]).0@,
            ) && self@.active[out@[k].0@] == out@[k].1 by {
                crate::table::lemma_position_unique(self.active.entries(), k);
            }
            assert forall|a: int, b: int| 0 <= a < b < out@.len() implies (#[trigger] out@[a]).0@
                != (#[trigger] out@[b]).0@ by {
                assert(self.active.entries()[a].0 != self.active.entries()[b].0);
            }
        }
        out
    }

    /// Empties the active set.
    pub fn clear_active(&mut self)
        requires
            old(self).wf(),
        ensures
            final(self).wf(),
            final(self)@ == (SupervisorView { active: Map::empty(), ..old(self)@ }),
    {
        self.active = NameTable::new();
    }
}

/// One server that a shutdown has to stop.
#[derive(Debug, PartialEq, Eq)]
pub struct StopTarget<C> {
    /// The name of the server.
    pub name: String,
    /// Its entry, with the client to cancel.
    pub entry: RunningEntry<C>,
    /// The port whose lock file is deleted after the cancel.
    pub port: Option<u16>,
}

/// What a shutdown works on: the servers to stop, and the processes that were
/// known when it began.
pub struct ShutdownRun<C> {
    /// The servers to stop, in order.
    pub targets: Vec<StopTarget<C>>,
    /// The names of those servers, in the same order.
    pub names: Vec<String>,
    /// The processes of local servers, as known when the shutdown began.
    pub pids: NameTable<u32>,
}

/// The port whose lock file guards the server `name` in the state `state`:
/// the bridge port that its active configuration declares.
pub open spec fn lock_port_of<C>(state: SupervisorView<C>, name: Seq<char>) -> Option<u16> {
    if state.active.contains_key(name) {
        guarded_port_of_config(name, state.active[name])
    } else {
        None
    }
}

/// `after` holds the processes of `before` but those of the servers `names`.
pub open spec fn forgot(
    before: Map<Seq<char>, u32>,
    names: Seq<Seq<char>>,
    after: Map<Seq<char>, u32>,
) -> bool {
    &&& forall|name: Seq<char>|
        after.contains_key(name) <==> before.contains_key(name) && !names.contains(name)
    &&& forall|name: Seq<char>| after.contains_key(name) ==> after[name] == before[name]
}

/// `targets` are the live servers `entries` in order, each with the port whose
/// lock file guards it in the state `state`.
pub open spec fn targets_match<C>(
    targets: Seq<StopTarget<C>>,
    entries: Seq<(Seq<char>, RunningEntry<C>)>,
    state: SupervisorView<C>,
) -> bool {
    &&& targets.len() == entries.len()
    &&& forall|i: int|
        0 <= i < targets.len() ==> {
            &&& (#[trigger] targets[i]).name@ == entries[i].0
            &&& targets[i].entry == entries[i].1
            &&& targets[i].port == lock_port_of(state, targets[i].name@)
        }
}

impl<C> Supervisor<C> {
    /// The live servers in the order in which a shutdown walks them.
    pub closed spec fn server_entries(&self) -> Seq<(Seq<char>, RunningEntry<C>)> {
        self.servers.entries()
    }

    /// The live servers in order are the live servers by name.
    pub proof fn lemma_server_entries(&self)
        requires
            self.wf(),
        ensures
            crate::table::keys_distinct(self.server_entries()),
            self@.servers == crate::table::as_map(self.server_entries()),
    {
    }

    /// Marks the beginning of a shutdown. It says no where a shutdown is
    /// already under way: then the caller has nothing to do.
    pub fn begin_shutdown(&mut self) -> (begun: bool)
        requires
            old(self).wf(),
        ensures
            final(self).wf(),
            begun == !old(self)@.shutting_down,
            final(self)@ == (SupervisorView { shutting_down: true, ..old(self)@ }),
    {
        if self.shutdown_in_progress {
            false
        } else {
            self.shutdown_in_progress = true;
            true
        }
    }

    /// Marks the end of a shutdown, on every way out of it.
    pub fn end_shutdown(&mut self)
        requires
            old(self).wf(),
        ensures
            final(self).wf(),
            final(self)@ == (SupervisorView { shutting_down: false, ..old(self)@ }),
    {
        self.shutdown_in_progress = false;
    }

    /// Takes all live servers out of the state, for a shutdown to stop them.
    /// Each comes with the port whose lock file is to be deleted, and the
    /// processes known at this moment are handed along.
    pub fn drain_for_shutdown(&mut self) -> (run: ShutdownRun<C>)
        requires
            old(self).wf(),
        ensures
            final(self).wf(),
            final(self)@ == (SupervisorView { servers: Map::empty(), ..old(self)@ }),
            run.pids.wf(),
            run.pids@ == old(self)@.pids,
            targets_match(run.targets@, old(self).server_entries(), old(self)@),
            run.names@.len() == run.targets@.len(),
            forall|i: int|
                0 <= i < run.names@.len() ==> (#[trigger] run.names@[i])@ == old(
                    self,
                ).server_entries()[i].0,
    {
        let pids = self.pids_snapshot();
        let ghost orig = self.servers.entries();
        let ghost was = self@;
        let mut pending = self.servers.take_all();
        let mut targets: Vec<StopTarget<C>> = Vec::new();
        let mut names: Vec<String> = Vec::new();
        while pending.len() > 0
            invariant
                self.active.wf(),
                self.active@ == was.active,
                targets@.len() + pending@.len() == orig.len(),
                names@.len() == targets@.len(),
                forall|x: int|
                    0 <= x < pending@.len() ==> (#[trigger] pending@[x]).0@ == orig[targets@.len()
                        + x].0 && pending@[x].1 == orig[targets@.len() + x].1,
                forall|i: int|
                    0 <= i < targets@.len() ==> {
                        &&& (#[trigger] targets@[i]).name@ == orig[i].0
                        &&& targets@[i].entry == orig[i].1
                        &&& targets@[i].port == lock_port_of(was, targets@[i].name@)
                        &&& names@[i]@ == targets@[i].name@
                    },
            decreases pending@.len(),
        {
            let (name, entry) = pending.remove(0);
            let port = match self.active.get(name.as_str()) {
                Some(config) => bridge_port_of_config(name.as_str(), config),
                None => None,
            };
            names.push(name.clone());
            targets.push(StopTarget { name, entry, port });
        }
        assert forall|i: int| 0 <= i < names@.len() implies (#[trigger] names@[i])@ == orig[i].0 by {
            assert(targets@[i].name@ == orig[i].0);
        }
        ShutdownRun { targets, names, pids }
    }

    fn pids_snapshot(&self) -> (r: NameTable<u32>)
        requires
            self.pids.wf(),
        ensures
            r.wf(),
            r@ == self.pids@,
    {
        let mut out: NameTable<u32> = NameTable::new();
        let mut i: usize = 0;
        let ghost all = self.pids.entries();
        assert(all.subrange(0, 0) =~= Seq::<(Seq<char>, u32)>::empty());
        while i < self.pids.len()
            invariant
                self.pids.wf(),
                all == self.pids.entries(),
                0 <= i <= all.len(),
                out.wf(),
                out.entries() == all.subrange(0, i as int),
            decreases all.len() - i,
        {
            let name = self.pids.name_at(i).clone();
            let pid = *self.pids.value_at(i);
            proof {
                if crate::table::has_key(out.entries(), name@) {
                    let p = crate::table::position_of(out.entries(), name@);
                    assert(all[p].0 != all[i as int].0);
                }
            }
            out.insert(name, pid);
            assert(out.entries() =~= all.subrange(0, i + 1));
            i = i + 1;
        }
        assert(all.subrange(0, i as int) =~= all);
        out
    }

    /// Forgets the processes of the servers that a shutdown has stopped.
    pub fn forget_pids(&mut self, names: &Vec<String>)
        requires
            old(self).wf(),
        ensures
            final(self).wf(),
            final(self)@.servers == old(self)@.servers,
            final(self)@.restart == old(self)@.restart,
            final(self)@.active == old(self)@.active,
            final(self)@.settings == old(self)@.settings,
            final(self)@.shutting_down == old(self)@.shutting_down,
            forgot(
                old(self)@.pids,
                Seq::new(names@.len(), |i: int| names@[i]@),
                final(self)@.pids,
            ),
    {
        let mut i: usize = 0;
        while i < names.len()
            invariant
                0 <= i <= names@.len(),
                self.wf(),
                self@.servers == old(self)@.servers,
                self@.restart == old(self)@.restart,
                self@.active == old(self)@.active,
                self@.settings == old(self)@.settings,
                self@.shutting_down == old(self)@.shutting_down,
                forall|name: Seq<char>|
                    self@.pids.contains_key(name) <==> old(self)@.pids.contains_key(name) && !(
                    exists|k: int| 0 <= k < i && (#[trigger] names@[k])@ == name),
                forall|name: Seq<char>|
                    self@.pids.contains_key(name) ==> self@.pids[name] == old(self)@.pids[name],
            decreases names@.len() - i,
        {
            let ghost before = self@.pids;
            self.pids.remove(names[i].as_str());
            proof {
                let gone = names@[i as int]@;
                assert(self@.pids == before.remove(gone));
                assert forall|name: Seq<char>|
                    self@.pids.contains_key(name) <==> old(self)@.pids.contains_key(name) && !(
                    exists|k: int| 0 <= k < i + 1 && (#[trigger] names@[k])@ == name) by {
                    if old(self)@.pids.contains_key(name) {
                        if exists|k: int| 0 <= k < i + 1 && (#[trigger] names@[k])@ == name {
                            let k = choose|k: int| 0 <= k < i + 1 && (#[trigger] names@[k])@ == name;
                            if k < i {
                                assert(!before.contains_key(name));
                            }
                        } else {
                            assert(!(exists|k: int| 0 <= k < i && (#[trigger] names@[k])@ == name));
                            assert(before.contains_key(name));
                            assert(names@[i as int]@ != name);
                        }
                    }
                }
            }
            i = i + 1;
        }
        proof {
            let listed = Seq::new(names@.len(), |i: int| names@[i]@);
            assert forall|name: Seq<char>|
                self@.pids.contains_key(name) <==> old(self)@.pids.contains_key(name)
                    && !listed.contains(name) by {
                if listed.contains(name) {
                    let k = choose|k: int| 0 <= k < listed.len() && listed[k] == name;
                    assert(names@[k]@ == name);
                }
                if exists|k: int| 0 <= k < names@.len() && (#[trigger] names@[k])@ == name {
                    let k = choose|k: int| 0 <= k < names@.len() && (#[trigger] names@[k])@ == name;
                    assert(listed[k] == name);
                }
            }
        }
    }
}

} // verus!

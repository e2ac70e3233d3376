//! The shutdown of the fleet, step by step.
//!
//! The shutdown decides and keeps the books of the supervisor; its runner
//! aborts the monitors, sleeps, cancels the clients within the timeouts,
//! runs the reaper and reports back. A second shutdown does not begin while
//! one is under way.

use vstd::prelude::*;
use crate::error::McpError;
use crate::shutdown::{
    failed_servers, failed_servers_spec, force_kill_list, names_view, reap_list_view, to_reap,
    CancelReport, ShutdownContext, FINAL_SETTLE_MS, MONITOR_ABORT_SETTLE_MS,
};
use crate::supervisor::{forgot, targets_match, StopTarget, Supervisor, SupervisorView};
use crate::table::NameTable;

verus! {

/// What the shutdown waits for.
#[derive(Debug, Clone, Copy, PartialEq, Eq, Structural)]
pub enum ShutdownPhase {
    /// The abortion of the monitors.
    AwaitAbort,
    /// The end of the sleep after that.
    AwaitAbortSettle,
    /// The end of the graceful cancels.
    AwaitCancels,
    /// The end of a reaping.
    AwaitReap,
    /// The end of the last sleep.
    AwaitFinalSettle,
    /// Nothing: the shutdown has finished.
    Finished,
}

/// What the runner reports.
#[derive(Debug, PartialEq, Eq)]
pub enum ShutdownEvent {
    /// Every monitoring task was told to stop.
    MonitorsAborted,
    /// The sleep is over.
    Slept,
    /// The graceful cancels are over. `reports` holds what each cancel task
    /// reported, nothing for a task that did not come back; it is none where
    /// the cancels as a whole ran out of time.
    CancelsDone { reports: Option<Vec<Option<CancelReport>>> },
    /// The reaper finished; a failure is logged and changes nothing.
    Reaped { result: Result<(), McpError> },
}

/// What the shutdown asks its runner to do. `C` is the connected client.
#[derive(Debug, PartialEq, Eq)]
pub enum ShutdownAction<C> {
    /// Abort every monitoring task.
    AbortMonitors,
    /// Sleep for the given milliseconds.
    Sleep { millis: u64 },
    /// Cancel every client, each within the timeout of one server of
    /// `context`, all together within its overall timeout. After the cancel
    /// of a server with a port, its lock file is deleted, as `after_cancel`
    /// says.
    CancelAll { targets: Vec<StopTarget<C>>, context: ShutdownContext },
    /// Run the reaper on the process of the server.
    Reap { name: String, pid: u32 },
    /// The shutdown has finished.
    Finish,
}

/// The shutdown of the fleet.
#[derive(Debug)]
pub struct Shutdown {
    /// Why the fleet is stopped.
    pub context: ShutdownContext,
    /// What the shutdown waits for.
    pub phase: ShutdownPhase,
    /// The servers that are being stopped, in order.
    pub names: Vec<String>,
    /// The processes of local servers, as known when the servers were taken
    /// out of the state.
    pub pids: NameTable<u32>,
    /// The processes that are still to be reaped, the next one first.
    pub pending: Vec<(String, u32)>,
}

/// The shutdown as a value.
pub struct ShutdownView {
    /// Why the fleet is stopped.
    pub context: ShutdownContext,
    /// What the shutdown waits for.
    pub phase: ShutdownPhase,
    /// The servers that are being stopped, in order.
    pub names: Seq<Seq<char>>,
    /// The processes of local servers.
    pub pids: Map<Seq<char>, u32>,
    /// The processes that are still to be reaped, the next one first.
    pub pending: Seq<(Seq<char>, u32)>,
}

/// What `reports` holds, if anything.
pub open spec fn reports_view(reports: Option<Vec<Option<CancelReport>>>) -> Option<
    Seq<Option<CancelReport>>,
> {
    match reports {
        Some(r) => Some(r@),
        None => None,
    }
}

impl ShutdownView {
    /// The shutdown in another phase.
    pub open spec fn at(self, phase: ShutdownPhase) -> ShutdownView {
        ShutdownView { phase, ..self }
    }
}

/// The step that reaps the next pending process of `before`, or, where none
/// is pending, forgets the processes of the stopped servers and goes to the
/// last sleep.
pub open spec fn reaps_next<C>(
    before: ShutdownView,
    state_before: SupervisorView<C>,
    after: ShutdownView,
    state_after: SupervisorView<C>,
    action: Option<ShutdownAction<C>>,
) -> bool {
    if before.pending.len() > 0 {
        &&& after == (ShutdownView {
            phase: ShutdownPhase::AwaitReap,
            pending: before.pending.drop_first(),
            ..before
        })
        &&& state_after == state_before
        &&& action matches Some(ShutdownAction::Reap { name, pid })
        &&& name@ == before.pending[0].0
        &&& pid == before.pending[0].1
    } else {
        &&& after == before.at(ShutdownPhase::AwaitFinalSettle)
        &&& state_after.servers == state_before.servers
        &&& state_after.restart == state_before.restart
        &&& state_after.active == state_before.active
        &&& state_after.settings == state_before.settings
        &&& state_after.shutting_down == state_before.shutting_down
        &&& forgot(state_before.pids, before.names, state_after.pids)
        &&& action == Some(ShutdownAction::<C>::Sleep { millis: FINAL_SETTLE_MS })
    }
}

/// The step of the shutdown `before`, in the state of `supervisor`, on
/// `event`: the shutdown `after`, the state `state_after` and the action
/// asked for. An event that the shutdown does not wait for changes nothing
/// and asks for nothing.
pub open spec fn stepped<C>(
    before: ShutdownView,
    supervisor: Supervisor<C>,
    event: ShutdownEvent,
    after: ShutdownView,
    state_after: SupervisorView<C>,
    action: Option<ShutdownAction<C>>,
) -> bool {
    match (before.phase, event) {
        (ShutdownPhase::AwaitAbort, ShutdownEvent::MonitorsAborted) => {
            &&& after == before.at(ShutdownPhase::AwaitAbortSettle)
            &&& state_after == supervisor@
            &&& action == Some(ShutdownAction::<C>::Sleep { millis: MONITOR_ABORT_SETTLE_MS })
        },
        (ShutdownPhase::AwaitAbortSettle, ShutdownEvent::Slept) => if supervisor.server_entries().len()
            == 0 {
            &&& after == before.at(ShutdownPhase::Finished)
            &&& state_after == (SupervisorView {
                servers: Map::empty(),
                shutting_down: false,
                ..supervisor@
            })
            &&& action == Some(ShutdownAction::<C>::Finish)
        } else {
            &&& after == (ShutdownView {
                phase: ShutdownPhase::AwaitCancels,
                names: Seq::new(
                    supervisor.server_entries().len(),
                    |i: int| supervisor.server_entries()[i].0,
                ),
                pids: supervisor@.pids,
                ..before
            })
            &&& state_after == (SupervisorView { servers: Map::empty(), ..supervisor@ })
            &&& action matches Some(ShutdownAction::CancelAll { targets, context })
            &&& context == before.context
            &&& targets_match(targets@, supervisor.server_entries(), supervisor@)
        },
        (ShutdownPhase::AwaitCancels, ShutdownEvent::CancelsDone { reports }) => reaps_next(
            ShutdownView {
                pending: to_reap(
                    failed_servers_spec(before.names, reports_view(reports)),
                    before.pids,
                ),
                ..before
            },
            supervisor@,
            after,
            state_after,
            action,
        ),
        (ShutdownPhase::AwaitReap, ShutdownEvent::Reaped { result }) => reaps_next(
            before,
            supervisor@,
            after,
            state_after,
            action,
        ),
        (ShutdownPhase::AwaitFinalSettle, ShutdownEvent::Slept) => {
            &&& after == before.at(ShutdownPhase::Finished)
            &&& state_after == (SupervisorView { shutting_down: false, ..supervisor@ })
            &&& action == Some(ShutdownAction::<C>::Finish)
        },
        _ => after == before && state_after == supervisor@ && action is None,
    }
}

impl Shutdown {
    /// The shutdown as a value.
    pub open spec fn view(&self) -> ShutdownView {
        ShutdownView {
            context: self.context,
            phase: self.phase,
            names: names_view(self.names@),
            pids: self.pids@,
            pending: reap_list_view(self.pending@),
        }
    }

    /// The table of processes holds no name twice.
    pub open spec fn wf(&self) -> bool {
        self.pids.wf()
    }

    /// Begins the shutdown of the fleet for the reason `context`. Nothing
    /// begins where a shutdown is already under way: then the caller has
    /// nothing to do.
    pub fn start<C>(supervisor: &mut Supervisor<C>, context: ShutdownContext) -> (r: Option<
        (Shutdown, ShutdownAction<C>),
    >)
        requires
            old(supervisor).wf(),
        ensures
            final(supervisor).wf(),
            final(supervisor)@ == (SupervisorView { shutting_down: true, ..old(supervisor)@ }),
            r is Some <==> !old(supervisor)@.shutting_down,
            r matches Some((shutdown, action)) ==> shutdown.wf() && shutdown@ == (ShutdownView {
                context,
                phase: ShutdownPhase::AwaitAbort,
                names: Seq::empty(),
                pids: Map::empty(),
                pending: Seq::empty(),
            }) && action == ShutdownAction::<C>::AbortMonitors,
    {
        if !supervisor.begin_shutdown() {
            return None;
        }
        let shutdown = Shutdown {
            context,
            phase: ShutdownPhase::AwaitAbort,
            names: Vec::new(),
            pids: NameTable::new(),
            pending: Vec::new(),
        };
        assert(shutdown@.names =~= Seq::empty());
        assert(shutdown@.pending =~= Seq::empty());
        Some((shutdown, ShutdownAction::AbortMonitors))
    }

    /// Takes in what the runner reports, keeps the books of the supervisor,
    /// and says what to do next.
    pub fn step<C>(&mut self, supervisor: &mut Supervisor<C>, event: ShutdownEvent) -> (action:
        Option<ShutdownAction<C>>)
        requires
            old(self).wf(),
            old(supervisor).wf(),
        ensures
            final(self).wf(),
            final(supervisor).wf(),
            stepped(old(self)@, *old(supervisor), event, final(self)@, final(supervisor)@, action),
    {
        match self.phase {
            ShutdownPhase::AwaitAbort => match event {
                ShutdownEvent::MonitorsAborted => {
                    self.phase = ShutdownPhase::AwaitAbortSettle;
                    Some(ShutdownAction::Sleep { millis: MONITOR_ABORT_SETTLE_MS })
                },
                _ => None,
            },
            ShutdownPhase::AwaitAbortSettle => match event {
                ShutdownEvent::Slept => {
                    let run = supervisor.drain_for_shutdown();
                    if run.targets.len() == 0 {
                        supervisor.end_shutdown();
                        self.phase = ShutdownPhase::Finished;
                        Some(ShutdownAction::Finish)
                    } else {
                        self.phase = ShutdownPhase::AwaitCancels;
                        self.names = run.names;
                        self.pids = run.pids;
                        assert(self@.names =~= Seq::new(
                            old(supervisor).server_entries().len(),
                            |i: int| old(supervisor).server_entries()[i].0,
                        ));
                        Some(
                            ShutdownAction::CancelAll {
                                targets: run.targets,
                                context: self.context,
                            },
                        )
                    }
                },
                _ => None,
            },
            ShutdownPhase::AwaitCancels => match event {
                ShutdownEvent::CancelsDone { reports } => {
                    let failed = failed_servers(&self.names, reports.as_ref());
                    self.pending = force_kill_list(&failed, &self.pids);
                    self.reap_next(supervisor)
                },
                _ => None,
            },
            ShutdownPhase::AwaitReap => match event {
                ShutdownEvent::Reaped { result } => self.reap_next(supervisor),
                _ => None,
            },
            ShutdownPhase::AwaitFinalSettle => match event {
                ShutdownEvent::Slept => {
                    supervisor.end_shutdown();
                    self.phase = ShutdownPhase::Finished;
                    Some(ShutdownAction::Finish)
                },
                _ => None,
            },
            ShutdownPhase::Finished => None,
        }
    }

    fn reap_next<C>(&mut self, supervisor: &mut Supervisor<C>) -> (action: Option<
        ShutdownAction<C>,
    >)
        requires
            old(self).wf(),
            old(supervisor).wf(),
        ensures
            final(self).wf(),
            final(supervisor).wf(),
            reaps_next(old(self)@, old(supervisor)@, final(self)@, final(supervisor)@, action),
    {
        if self.pending.len() > 0 {
            let (name, pid) = self.pending.remove(0);
            self.phase = ShutdownPhase::AwaitReap;
            assert(self@.pending =~= old(self)@.pending.drop_first());
            Some(ShutdownAction::Reap { name, pid })
        } else {
            supervisor.forget_pids(&self.names);
            self.phase = ShutdownPhase::AwaitFinalSettle;
            assert(names_view(self.names@) =~= Seq::new(
                self.names@.len(),
                |i: int| self.names@[i]@,
            ));
            Some(ShutdownAction::Sleep { millis: FINAL_SETTLE_MS })
        }
    }

    /// Whether the shutdown has finished.
    pub fn is_finished(&self) -> (b: bool)
        ensures
            b == (self.phase == ShutdownPhase::Finished),
    {
        match self.phase {
            ShutdownPhase::Finished => true,
            _ => false,
        }
    }
}

/// The milliseconds that `action` lets the runner wait at most: a sleep as
/// long as it says, the cancels within the overall timeout, and a reaping
/// within the time that the reaper sleeps.
pub open spec fn wait_of<C>(action: Option<ShutdownAction<C>>) -> nat {
    match action {
        Some(ShutdownAction::Sleep { millis }) => millis as nat,
        Some(ShutdownAction::CancelAll { targets, context }) => context.overall_timeout_ms(),
        Some(ShutdownAction::Reap { name, pid }) => crate::reaper::reap_sleep_bound_ms(),
        _ => 0,
    }
}

/// The milliseconds that a shutdown in the state `v` may still let its runner
/// wait, where `reaps` more processes are to be reaped.
pub open spec fn wait_left(v: ShutdownView, reaps: nat) -> nat {
    match v.phase {
        ShutdownPhase::AwaitAbort => MONITOR_ABORT_SETTLE_MS as nat
            + v.context.overall_timeout_ms() + reaps * 3000 + FINAL_SETTLE_MS as nat,
        ShutdownPhase::AwaitAbortSettle => v.context.overall_timeout_ms() + reaps * 3000
            + FINAL_SETTLE_MS as nat,
        ShutdownPhase::AwaitCancels => reaps * 3000 + FINAL_SETTLE_MS as nat,
        ShutdownPhase::AwaitReap => reaps * 3000 + FINAL_SETTLE_MS as nat,
        ShutdownPhase::AwaitFinalSettle => 0,
        ShutdownPhase::Finished => 0,
    }
}

/// Shutdown upper bound, step by step: whatever a step asks the runner to
/// wait for, together with what may follow, is within what was left before
/// the step. So from its first action on, a shutdown lets its runner wait for
/// the pause after the monitors, the overall timeout, the pause at the end,
/// and three seconds for each process that is reaped, and for nothing else.
pub proof fn lemma_shutdown_waits_bounded<C>(
    before: ShutdownView,
    supervisor: Supervisor<C>,
    event: ShutdownEvent,
    after: ShutdownView,
    state_after: SupervisorView<C>,
    action: Option<ShutdownAction<C>>,
    reaps: nat,
)
    requires
        stepped(before, supervisor, event, after, state_after, action),
        after.phase == ShutdownPhase::AwaitReap ==> reaps >= after.pending.len() + 1,
        before.phase == ShutdownPhase::AwaitReap ==> reaps >= before.pending.len(),
    ensures
        wait_of(action) + wait_left(
            after,
            if after.phase == ShutdownPhase::AwaitReap {
                after.pending.len()
            } else {
                reaps
            },
        ) <= wait_left(before, reaps),
        wait_left(
            ShutdownView { phase: ShutdownPhase::AwaitAbort, ..before },
            0,
        ) <= before.context.overall_timeout_ms() + before.context.per_server_timeout_ms() + 250,
{
    assert(crate::reaper::reap_sleep_bound_ms() == 3000);
    if after.phase == ShutdownPhase::AwaitReap && action is Some {
        assert(after.pending.len() * 3000 + 3000 <= reaps * 3000) by (nonlinear_arith)
            requires
                reaps >= after.pending.len() + 1,
        ;
    }
}

} // verus!

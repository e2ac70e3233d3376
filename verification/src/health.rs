//! The health monitor of one server, step by step.
//!
//! The monitor decides and keeps the books of the supervisor; its runner
//! sleeps, probes the server and reports back.

use vstd::prelude::*;
use crate::monitor::{
    after_probe, after_probe_spec, after_sleep, after_sleep_spec, monitor_first_action,
    monitor_start, MonitorAction, ProbeResult, QuitReason,
};
use crate::supervisor::{RunningEntry, Supervisor, SupervisorView};

verus! {

/// What the monitor waits for.
#[derive(Debug, Clone, Copy, PartialEq, Eq, Structural)]
pub enum HealthPhase {
    /// The end of a sleep.
    AwaitWake,
    /// The result of a probe.
    AwaitProbe,
    /// Nothing: the monitor has ended.
    Finished,
}

/// What the runner reports.
#[derive(Debug, Clone, Copy, PartialEq, Eq, Structural)]
pub enum HealthEvent {
    /// The sleep is over; `shutdown_requested` says whether the monitor was
    /// told to stop meanwhile.
    Woke { shutdown_requested: bool },
    /// The probe came back.
    Probed { result: ProbeResult },
}

/// What the monitor asks its runner to do. `C` is the connected client.
#[derive(Debug, PartialEq, Eq)]
pub enum HealthAction<C> {
    /// Sleep for the given milliseconds.
    Sleep { millis: u64 },
    /// List the tools of the server, giving up after the given milliseconds.
    Probe { timeout_millis: u64 },
    /// The monitor has ended for the given reason. An entry that was removed
    /// because of a failed probe is handed along, for its client to be
    /// cancelled; errors of the cancel are ignored.
    Quit { reason: QuitReason, removed: Option<RunningEntry<C>> },
}

/// The health monitor of one server.
#[derive(Debug, Clone)]
pub struct HealthMonitor {
    /// The name of the server.
    pub name: String,
    /// What the monitor waits for.
    pub phase: HealthPhase,
}

/// The action of the monitor that stands for the decision `decision`, taken
/// in the state `before`, with the phase and the state that follow.
pub open spec fn carried_out<C>(
    name: Seq<char>,
    decision: MonitorAction,
    before: SupervisorView<C>,
) -> (HealthPhase, SupervisorView<C>, HealthAction<C>) {
    match decision {
        MonitorAction::Sleep { millis } => (
            HealthPhase::AwaitWake,
            before,
            HealthAction::Sleep { millis },
        ),
        MonitorAction::Probe { timeout_millis } => (
            HealthPhase::AwaitProbe,
            before,
            HealthAction::Probe { timeout_millis },
        ),
        MonitorAction::RemoveAndCancel { reason } => (
            HealthPhase::Finished,
            SupervisorView { servers: before.servers.remove(name), ..before },
            HealthAction::Quit {
                reason,
                removed: if before.servers.contains_key(name) {
                    Some(before.servers[name])
                } else {
                    None
                },
            },
        ),
        MonitorAction::Quit { reason } => (
            HealthPhase::Finished,
            before,
            HealthAction::Quit { reason, removed: None },
        ),
    }
}

/// The phase, the state and the action that follow `event`; no action and no
/// change where the event is not what the monitor waits for.
pub open spec fn health_step<C>(monitor: HealthMonitor, before: SupervisorView<C>, event: HealthEvent)
    -> (HealthPhase, SupervisorView<C>, Option<HealthAction<C>>) {
    match (monitor.phase, event) {
        (HealthPhase::AwaitWake, HealthEvent::Woke { shutdown_requested }) => {
            let next = carried_out(
                monitor.name@,
                after_sleep_spec(shutdown_requested, before.servers.contains_key(monitor.name@)),
                before,
            );
            (next.0, next.1, Some(next.2))
        },
        (HealthPhase::AwaitProbe, HealthEvent::Probed { result }) => {
            let next = carried_out(monitor.name@, after_probe_spec(result), before);
            (next.0, next.1, Some(next.2))
        },
        _ => (monitor.phase, before, None),
    }
}

impl HealthMonitor {
    /// Begins to monitor the server `name`: the first action is a sleep.
    pub fn start<C>(name: &str) -> (r: (HealthMonitor, HealthAction<C>))
        ensures
            r.0.name@ == name@,
            r.0.phase == HealthPhase::AwaitWake,
            monitor_first_action() matches MonitorAction::Sleep { millis } && r.1
                == (HealthAction::<C>::Sleep { millis }),
    {
        let millis = match monitor_start() {
            MonitorAction::Sleep { millis } => millis,
            _ => 0,
        };
        (
            HealthMonitor { name: name.to_owned(), phase: HealthPhase::AwaitWake },
            HealthAction::Sleep { millis },
        )
    }

    fn carry_out<C>(&mut self, supervisor: &mut Supervisor<C>, decision: MonitorAction) -> (action:
        HealthAction<C>)
        requires
            old(supervisor).wf(),
        ensures
            final(supervisor).wf(),
            final(self).name == old(self).name,
            (final(self).phase, final(supervisor)@, action) == carried_out(
                old(self).name@,
                decision,
                old(supervisor)@,
            ),
    {
        match decision {
            MonitorAction::Sleep { millis } => {
                self.phase = HealthPhase::AwaitWake;
                HealthAction::Sleep { millis }
            },
            MonitorAction::Probe { timeout_millis } => {
                self.phase = HealthPhase::AwaitProbe;
                HealthAction::Probe { timeout_millis }
            },
            MonitorAction::RemoveAndCancel { reason } => {
                self.phase = HealthPhase::Finished;
                let removed = supervisor.remove(self.name.as_str());
                HealthAction::Quit { reason, removed }
            },
            MonitorAction::Quit { reason } => {
                self.phase = HealthPhase::Finished;
                HealthAction::Quit { reason, removed: None }
            },
        }
    }

    /// Takes in what the runner reports, keeps the books of the supervisor,
    /// and says what to do next. A server that fails a probe is taken out of
    /// the live servers at once.
    pub fn step<C>(&mut self, supervisor: &mut Supervisor<C>, event: HealthEvent) -> (action:
        Option<HealthAction<C>>)
        requires
            old(supervisor).wf(),
        ensures
            final(supervisor).wf(),
            final(self).name == old(self).name,
            (final(self).phase, final(supervisor)@, action) == health_step(
                *old(self),
                old(supervisor)@,
                event,
            ),
    {
        match self.phase {
            HealthPhase::AwaitWake => match event {
                HealthEvent::Woke { shutdown_requested } => {
                    let present = supervisor.is_running(self.name.as_str());
                    let decision = after_sleep(shutdown_requested, present);
                    Some(self.carry_out(supervisor, decision))
                },
                _ => None,
            },
            HealthPhase::AwaitProbe => match event {
                HealthEvent::Probed { result } => {
                    let decision = after_probe(result);
                    Some(self.carry_out(supervisor, decision))
                },
                _ => None,
            },
            HealthPhase::Finished => None,
        }
    }
}

/// One failure is terminal: a failed probe ends the monitor with a reason
/// that counts as an unexpected end, and the server is no longer live. A
/// monitor that is told to stop, or whose server is gone, ends as closed and
/// removes nothing.
pub proof fn lemma_one_failure_is_terminal<C>(
    monitor: HealthMonitor,
    before: SupervisorView<C>,
    event: HealthEvent,
)
    ensures
        match (monitor.phase, event) {
            (HealthPhase::AwaitProbe, HealthEvent::Probed { result: ProbeResult::Failed(failure) }) => {
                &&& health_step(monitor, before, event).0 == HealthPhase::Finished
                &&& !health_step(monitor, before, event).1.servers.contains_key(monitor.name@)
                &&& health_step(monitor, before, event).2 == Some(
                    HealthAction::Quit {
                        reason: QuitReason::Unhealthy(failure),
                        removed: if before.servers.contains_key(monitor.name@) {
                            Some(before.servers[monitor.name@])
                        } else {
                            None
                        },
                    },
                )
                &&& crate::monitor::is_unexpected(QuitReason::Unhealthy(failure))
            },
            (HealthPhase::AwaitWake, HealthEvent::Woke { shutdown_requested }) => shutdown_requested
                || !before.servers.contains_key(monitor.name@) ==> health_step(
                monitor,
                before,
                event,
            ) == (
                HealthPhase::Finished,
                before,
                Some(HealthAction::<C>::Quit { reason: QuitReason::Closed, removed: None }),
            ),
            _ => true,
        },
{
}

} // verus!

//! The restart loop of one server, step by step.
//!
//! The engine decides and keeps the books of the supervisor; its runner
//! sleeps, launches the server, runs the health monitor and reports back.

use vstd::prelude::*;
use crate::events::SupervisorEvent;
use crate::monitor::QuitReason;
use crate::restart::{AttemptPlan, LoopDecision, RestartState, StopReason};
use crate::supervisor::{Supervisor, SupervisorView};

verus! {

/// What the engine waits for.
#[derive(Debug, Clone, Copy, PartialEq, Eq, Structural)]
pub enum EnginePhase {
    /// The end of the wait before a launch.
    AwaitDelay,
    /// The result of the launch.
    AwaitLaunch,
    /// The end of the health monitor.
    AwaitMonitor,
    /// Nothing: the loop has ended.
    Finished,
}

/// What the runner reports.
#[derive(Debug, Clone, Copy, PartialEq, Eq, Structural)]
pub enum EngineEvent {
    /// The sleep is over.
    Slept,
    /// The launch came back; `ok` says whether it reported success.
    Launched { ok: bool },
    /// The health monitor ended.
    MonitorEnded { reason: QuitReason },
}

/// What the engine asks its runner to do.
#[derive(Debug, Clone)]
pub enum EngineAction {
    /// Sleep for the given milliseconds.
    Sleep { millis: u64 },
    /// Launch the server.
    Launch,
    /// Run the health monitor of the server until it ends.
    Monitor,
    /// The loop has ended for the given reason. Where the ceiling of attempts
    /// was passed, the event that says so is emitted.
    Stop { reason: StopReason, announce: Option<SupervisorEvent> },
}

/// The restart loop of one server.
#[derive(Debug, Clone)]
pub struct RestartEngine {
    /// The name of the server.
    pub name: String,
    /// The ceiling of attempts.
    pub max_restarts: u32,
    /// What the engine waits for.
    pub phase: EnginePhase,
}

/// The state after the attempt counter of `name` went to `state`.
pub open spec fn with_restart<C>(view: SupervisorView<C>, name: Seq<char>, state: RestartState)
    -> SupervisorView<C> {
    SupervisorView { restart: view.restart.insert(name, state), ..view }
}

/// `action` ends the loop for `reason`, and announces that the ceiling of
/// `max_restarts` was passed for `name` where that is the reason.
pub open spec fn stops(action: EngineAction, reason: StopReason, name: Seq<char>, max_restarts: u32)
    -> bool {
    match action {
        EngineAction::Stop { reason: given, announce } => given == reason && (match announce {
            Some(SupervisorEvent::MaxRestartsReached { server, max_restarts: ceiling }) => reason
                == StopReason::MaxRestartsReached && server@ == name && ceiling == max_restarts,
            Some(_) => false,
            None => reason != StopReason::MaxRestartsReached,
        }),
        _ => false,
    }
}

/// A round begins in the state `before`: the attempt is counted, and the
/// engine either gives up or waits before the launch.
pub open spec fn begins_round<C>(
    engine: RestartEngine,
    before: SupervisorView<C>,
    phase: EnginePhase,
    after: SupervisorView<C>,
    action: EngineAction,
) -> bool {
    let state = before.restart_state(engine.name@);
    &&& after == with_restart(before, engine.name@, state.counted())
    &&& match state.plan_spec(engine.max_restarts, before.settings) {
        AttemptPlan::GiveUp { max_restarts } => phase == EnginePhase::Finished && stops(
            action,
            StopReason::MaxRestartsReached,
            engine.name@,
            engine.max_restarts,
        ),
        AttemptPlan::Launch { attempt, delay_ms } => phase == EnginePhase::AwaitDelay && action
            == (EngineAction::Sleep { millis: delay_ms }),
    }
}

/// What follows the decision `decision`, taken in the state `decided`.
pub open spec fn follows<C>(
    engine: RestartEngine,
    decision: LoopDecision,
    decided: SupervisorView<C>,
    phase: EnginePhase,
    after: SupervisorView<C>,
    action: EngineAction,
) -> bool {
    match decision {
        LoopDecision::Retry => begins_round(engine, decided, phase, after, action),
        LoopDecision::Monitor => phase == EnginePhase::AwaitMonitor && after == decided && action
            == EngineAction::Monitor,
        LoopDecision::Stop(reason) => phase == EnginePhase::Finished && after == decided && stops(
            action,
            reason,
            engine.name@,
            engine.max_restarts,
        ),
    }
}

/// The step of the engine `engine`, in the state `before`, on `event`. An
/// event that the engine does not wait for changes nothing and asks for
/// nothing.
pub open spec fn engine_stepped<C>(
    engine: RestartEngine,
    before: SupervisorView<C>,
    event: EngineEvent,
    phase: EnginePhase,
    after: SupervisorView<C>,
    action: Option<EngineAction>,
) -> bool {
    let state = before.restart_state(engine.name@);
    match (engine.phase, event) {
        (EnginePhase::AwaitDelay, EngineEvent::Slept) => phase == EnginePhase::AwaitLaunch && after
            == before && action == Some(EngineAction::Launch),
        (EnginePhase::AwaitLaunch, EngineEvent::Launched { ok }) => action matches Some(a)
            && follows(
            engine,
            state.after_launch_spec(ok),
            with_restart(before, engine.name@, state.after_launch_state(ok)),
            phase,
            after,
            a,
        ),
        (EnginePhase::AwaitMonitor, EngineEvent::MonitorEnded { reason }) => action matches Some(a)
            && follows(engine, state.after_monitor_spec(reason), before, phase, after, a),
        _ => phase == engine.phase && after == before && action is None,
    }
}

impl RestartEngine {
    /// Attaches the engine to the server `name` after a start that
    /// succeeded: the health monitor runs first, and the engine takes over
    /// when the monitor ends.
    pub fn attach(name: &str, max_restarts: u32) -> (r: (RestartEngine, EngineAction))
        ensures
            r.0.name@ == name@,
            r.0.max_restarts == max_restarts,
            r.0.phase == EnginePhase::AwaitMonitor,
            r.1 == EngineAction::Monitor,
    {
        (
            RestartEngine { name: name.to_owned(), max_restarts, phase: EnginePhase::AwaitMonitor },
            EngineAction::Monitor,
        )
    }

    /// Begins the restart loop of the server `name` with its first round.
    pub fn start<C>(supervisor: &mut Supervisor<C>, name: &str, max_restarts: u32) -> (r: (
        RestartEngine,
        EngineAction,
    ))
        requires
            old(supervisor).wf(),
        ensures
            final(supervisor).wf(),
            r.0.name@ == name@,
            r.0.max_restarts == max_restarts,
            begins_round(r.0, old(supervisor)@, r.0.phase, final(supervisor)@, r.1),
    {
        let mut engine = RestartEngine {
            name: name.to_owned(),
            max_restarts,
            phase: EnginePhase::Finished,
        };
        let action = engine.begin_round(supervisor);
        (engine, action)
    }

    fn begin_round<C>(&mut self, supervisor: &mut Supervisor<C>) -> (action: EngineAction)
        requires
            old(supervisor).wf(),
        ensures
            final(supervisor).wf(),
            final(self).name == old(self).name,
            final(self).max_restarts == old(self).max_restarts,
            begins_round(
                *old(self),
                old(supervisor)@,
                final(self).phase,
                final(supervisor)@,
                action,
            ),
    {
        match supervisor.plan_restart(self.name.as_str(), self.max_restarts) {
            AttemptPlan::GiveUp { max_restarts } => {
                self.phase = EnginePhase::Finished;
                EngineAction::Stop {
                    reason: StopReason::MaxRestartsReached,
                    announce: Some(
                        SupervisorEvent::MaxRestartsReached {
                            server: self.name.clone(),
                            max_restarts: self.max_restarts,
                        },
                    ),
                }
            },
            AttemptPlan::Launch { attempt, delay_ms } => {
                self.phase = EnginePhase::AwaitDelay;
                EngineAction::Sleep { millis: delay_ms }
            },
        }
    }

    fn follow<C>(&mut self, supervisor: &mut Supervisor<C>, decision: LoopDecision) -> (action:
        EngineAction)
        requires
            old(supervisor).wf(),
        ensures
            final(supervisor).wf(),
            final(self).name == old(self).name,
            final(self).max_restarts == old(self).max_restarts,
            follows(
                *old(self),
                decision,
                old(supervisor)@,
                final(self).phase,
                final(supervisor)@,
                action,
            ),
    {
        match decision {
            LoopDecision::Retry => self.begin_round(supervisor),
            LoopDecision::Monitor => {
                self.phase = EnginePhase::AwaitMonitor;
                EngineAction::Monitor
            },
            LoopDecision::Stop(reason) => {
                self.phase = EnginePhase::Finished;
                match reason {
                    StopReason::MaxRestartsReached => EngineAction::Stop {
                        reason,
                        announce: Some(
                            SupervisorEvent::MaxRestartsReached {
                                server: self.name.clone(),
                                max_restarts: self.max_restarts,
                            },
                        ),
                    },
                    _ => EngineAction::Stop { reason, announce: None },
                }
            },
        }
    }

    /// Takes in what the runner reports, keeps the books of the supervisor,
    /// and says what to do next.
    pub fn step<C>(&mut self, supervisor: &mut Supervisor<C>, event: EngineEvent) -> (action:
        Option<EngineAction>)
        requires
            old(supervisor).wf(),
        ensures
            final(supervisor).wf(),
            final(self).name == old(self).name,
            final(self).max_restarts == old(self).max_restarts,
            engine_stepped(
                *old(self),
                old(supervisor)@,
                event,
                final(self).phase,
                final(supervisor)@,
                action,
            ),
    {
        match self.phase {
            EnginePhase::AwaitDelay => match event {
                EngineEvent::Slept => {
                    self.phase = EnginePhase::AwaitLaunch;
                    Some(EngineAction::Launch)
                },
                _ => None,
            },
            EnginePhase::AwaitLaunch => match event {
                EngineEvent::Launched { ok } => {
                    let decision = supervisor.after_restart_launch(self.name.as_str(), ok);
                    Some(self.follow(supervisor, decision))
                },
                _ => None,
            },
            EnginePhase::AwaitMonitor => match event {
                EngineEvent::MonitorEnded { reason } => {
                    let decision = supervisor.after_restart_monitor(self.name.as_str(), reason);
                    Some(self.follow(supervisor, decision))
                },
                _ => None,
            },
            EnginePhase::Finished => None,
        }
    }
}

/// Reset on success and flap guard, step by step. After a launch that
/// reported success for a server that is marked as connected, the attempt
/// counter of the server reads zero and the monitor takes over. After any
/// launch, and after any monitor, of a server that is not marked as connected
/// the loop ends: such a server gets no further attempt.
pub proof fn lemma_engine_guards<C>(
    engine: RestartEngine,
    before: SupervisorView<C>,
    event: EngineEvent,
    phase: EnginePhase,
    after: SupervisorView<C>,
    action: Option<EngineAction>,
)
    requires
        engine_stepped(engine, before, event, phase, after, action),
    ensures
        engine.phase == EnginePhase::AwaitLaunch && event == (EngineEvent::Launched { ok: true })
            && before.ever_connected(engine.name@) ==> after.restart_state(engine.name@).attempts
            == 0 && phase == EnginePhase::AwaitMonitor,
        (engine.phase == EnginePhase::AwaitLaunch && event is Launched || engine.phase
            == EnginePhase::AwaitMonitor && event is MonitorEnded) && !before.ever_connected(
            engine.name@,
        ) ==> phase == EnginePhase::Finished && after.restart_state(engine.name@).attempts
            == before.restart_state(engine.name@).attempts,
        after.servers == before.servers,
        after.active == before.active,
        after.pids == before.pids,
{
}

/// An attached engine relaunches after a failed probe: where the monitor of a
/// server that is marked as connected ends unexpectedly and the ceiling of
/// attempts is not passed, the attempt is counted and the engine waits the
/// backoff delay of that attempt before the launch. Where the monitor ends as
/// closed, the loop ends and nothing is announced.
pub proof fn lemma_attached_engine_relaunches<C>(
    engine: RestartEngine,
    before: SupervisorView<C>,
    reason: QuitReason,
    phase: EnginePhase,
    after: SupervisorView<C>,
    action: Option<EngineAction>,
)
    requires
        engine.phase == EnginePhase::AwaitMonitor,
        before.ever_connected(engine.name@),
        engine_stepped(engine, before, EngineEvent::MonitorEnded { reason }, phase, after, action),
    ensures
        crate::monitor::is_unexpected(reason) && before.restart_state(engine.name@).counted().attempts
            <= engine.max_restarts ==> phase == EnginePhase::AwaitDelay && action == Some(
            EngineAction::Sleep {
                millis: crate::backoff::backoff_delay(
                    before.restart_state(engine.name@).counted().attempts as nat,
                    before.settings,
                ) as u64,
            },
        ) && after.restart_state(engine.name@).attempts == before.restart_state(
            engine.name@,
        ).counted().attempts,
        !crate::monitor::is_unexpected(reason) ==> phase == EnginePhase::Finished && after == before
            && action == Some(
            EngineAction::Stop { reason: StopReason::DeliberateStop, announce: None },
        ),
{
}

} // verus!

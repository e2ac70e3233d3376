//! The restart engine of one server.
//!
//! One round of the engine is one restart attempt: count it, give up where
//! the ceiling is passed, wait, launch, and decide from what the launch and
//! the monitor report whether another round follows.

use vstd::prelude::*;
use crate::backoff::{backoff_delay, calculate_exponential_backoff_delay};
use crate::monitor::{is_unexpected, QuitReason};
use crate::settings::McpSettings;

verus! {

/// What the engine remembers of one server.
#[derive(Debug, Clone, Copy, PartialEq, Eq, Structural)]
pub struct RestartState {
    /// Restart attempts since the last verified success.
    pub attempts: u32,
    /// Whether a start of the server has ever passed verification.
    pub ever_connected: bool,
}

/// Why a restart loop ended.
#[derive(Debug, Clone, Copy, PartialEq, Eq, Structural)]
pub enum StopReason {
    /// More attempts were counted than the ceiling allows.
    MaxRestartsReached,
    /// The launch failed and the server had never been connected.
    NeverConnected,
    /// The launch reported success, but the server did not pass verification.
    FailedVerification,
    /// The server was stopped on purpose.
    DeliberateStop,
}

/// What a round starts with.
#[derive(Debug, Clone, Copy, PartialEq, Eq, Structural)]
pub enum AttemptPlan {
    /// The ceiling is passed: announce it and end the loop.
    GiveUp { max_restarts: u32 },
    /// Wait for the delay, then launch the server.
    Launch { attempt: u32, delay_ms: u64 },
}

/// What follows a launch or a monitor.
#[derive(Debug, Clone, Copy, PartialEq, Eq, Structural)]
pub enum LoopDecision {
    /// Start another round.
    Retry,
    /// Hand the server to the health monitor.
    Monitor,
    /// End the loop.
    Stop(StopReason),
}

impl RestartState {
    /// The state of a server that was never started.
    pub open spec fn fresh() -> RestartState {
        RestartState { attempts: 0, ever_connected: false }
    }

    /// The attempt counter after one more attempt; it stays at its largest
    /// value once there.
    pub open spec fn counted(self) -> RestartState {
        RestartState {
            attempts: if self.attempts < u32::MAX {
                (self.attempts + 1) as u32
            } else {
                self.attempts
            },
            ..self
        }
    }

    /// The plan of the round that starts in state `self`, after counting it.
    pub open spec fn plan_spec(self, max_restarts: u32, settings: McpSettings) -> AttemptPlan {
        let n = self.counted().attempts;
        if n > max_restarts {
            AttemptPlan::GiveUp { max_restarts }
        } else {
            AttemptPlan::Launch { attempt: n, delay_ms: backoff_delay(n as nat, settings) as u64 }
        }
    }

    /// The state after a launch that reported `launched`.
    pub open spec fn after_launch_state(self, launched: bool) -> RestartState {
        if launched && self.ever_connected {
            RestartState { attempts: 0, ..self }
        } else {
            self
        }
    }

    /// What follows a launch that reported `launched`.
    pub open spec fn after_launch_spec(self, launched: bool) -> LoopDecision {
        if launched {
            if self.ever_connected {
                LoopDecision::Monitor
            } else {
                LoopDecision::Stop(StopReason::FailedVerification)
            }
        } else if self.ever_connected {
            LoopDecision::Retry
        } else {
            LoopDecision::Stop(StopReason::NeverConnected)
        }
    }

    /// What follows the end of the monitor.
    pub open spec fn after_monitor_spec(self, reason: QuitReason) -> LoopDecision {
        if !self.ever_connected {
            LoopDecision::Stop(StopReason::NeverConnected)
        } else if is_unexpected(reason) {
            LoopDecision::Retry
        } else {
            LoopDecision::Stop(StopReason::DeliberateStop)
        }
    }

    /// The state of a server that was never started.
    pub fn new() -> (s: RestartState)
        ensures
            s == RestartState::fresh(),
    {
        RestartState { attempts: 0, ever_connected: false }
    }

    /// Starts a round: counts the attempt, and either gives up because the
    /// ceiling is passed or says how long to wait before the launch.
    pub fn plan_attempt(&mut self, max_restarts: u32, settings: &McpSettings) -> (plan:
        AttemptPlan)
        ensures
            *final(self) == old(self).counted(),
            plan == old(self).plan_spec(max_restarts, *settings),
    {
        if self.attempts < u32::MAX {
            self.attempts = self.attempts + 1;
        }
        if self.attempts > max_restarts {
            AttemptPlan::GiveUp { max_restarts }
        } else {
            let delay_ms = calculate_exponential_backoff_delay(self.attempts, settings);
            AttemptPlan::Launch { attempt: self.attempts, delay_ms }
        }
    }

    /// Records that a start of the server passed verification.
    pub fn mark_connected(&mut self)
        ensures
            final(self).ever_connected,
            final(self).attempts == old(self).attempts,
    {
        self.ever_connected = true;
    }

    /// Decides what follows a launch. A verified success resets the attempt
    /// counter and hands the server to the monitor. A failure is tried again
    /// only for a server that had been connected before.
    pub fn after_launch(&mut self, launched: bool) -> (decision: LoopDecision)
        ensures
            *final(self) == old(self).after_launch_state(launched),
            decision == old(self).after_launch_spec(launched),
    {
        if launched {
            if self.ever_connected {
                self.attempts = 0;
                LoopDecision::Monitor
            } else {
                LoopDecision::Stop(StopReason::FailedVerification)
            }
        } else if self.ever_connected {
            LoopDecision::Retry
        } else {
            LoopDecision::Stop(StopReason::NeverConnected)
        }
    }

    /// Decides what follows the end of the monitor: another round after an
    /// unexpected end, and the end of the loop after a deliberate stop or for
    /// a server that is not marked as connected.
    pub fn after_monitor(&self, reason: QuitReason) -> (decision: LoopDecision)
        ensures
            decision == self.after_monitor_spec(reason),
    {
        if !self.ever_connected {
            LoopDecision::Stop(StopReason::NeverConnected)
        } else {
            match reason {
                QuitReason::Unhealthy(_) => LoopDecision::Retry,
                QuitReason::Closed => LoopDecision::Stop(StopReason::DeliberateStop),
            }
        }
    }
}

/// What one round of the loop meets.
pub enum RoundEvent {
    /// The launch failed.
    LaunchFailed,
    /// The launch reported success without verifying the server.
    LaunchedUnverified,
    /// The launch succeeded and verified the server; later the monitor ended
    /// with the given reason.
    LaunchedVerified(QuitReason),
}

/// The state of the loop after a run.
pub struct LoopTrace {
    /// The state of the server.
    pub state: RestartState,
    /// How many launches the run made.
    pub launches: nat,
    /// Why the loop ended, if it has.
    pub stopped: Option<StopReason>,
}

/// One round of the loop from `state`, meeting `event`: the state after it and
/// whether the loop goes on; a launch is made unless the round gives up.
pub open spec fn round(state: RestartState, max_restarts: u32, event: RoundEvent) -> LoopTrace {
    let counted = state.counted();
    if counted.attempts > max_restarts {
        LoopTrace { state: counted, launches: 0, stopped: Some(StopReason::MaxRestartsReached) }
    } else {
        match event {
            RoundEvent::LaunchFailed => LoopTrace {
                state: counted.after_launch_state(false),
                launches: 1,
                stopped: match counted.after_launch_spec(false) {
                    LoopDecision::Stop(reason) => Some(reason),
                    _ => None,
                },
            },
            RoundEvent::LaunchedUnverified => LoopTrace {
                state: counted.after_launch_state(true),
                launches: 1,
                stopped: match counted.after_launch_spec(true) {
                    LoopDecision::Stop(reason) => Some(reason),
                    _ => None,
                },
            },
            RoundEvent::LaunchedVerified(reason) => {
                let verified = RestartState { ever_connected: true, ..counted };
                LoopTrace {
                    state: verified.after_launch_state(true),
                    launches: 1,
                    stopped: match verified.after_launch_state(true).after_monitor_spec(reason) {
                        LoopDecision::Stop(reason) => Some(reason),
                        _ => None,
                    },
                }
            },
        }
    }
}

/// A run of the loop from `state` that meets `events` in order, one for each
/// round, until the loop ends or the events run out.
pub open spec fn run(state: RestartState, max_restarts: u32, events: Seq<RoundEvent>) -> LoopTrace
    decreases events.len(),
{
    if events.len() == 0 {
        LoopTrace { state, launches: 0, stopped: None }
    } else {
        let first = round(state, max_restarts, events[0]);
        if first.stopped is Some {
            first
        } else {
            let rest = run(first.state, max_restarts, events.drop_first());
            LoopTrace { launches: first.launches + rest.launches, ..rest }
        }
    }
}

/// No round of `events` verifies the server.
pub open spec fn never_verified(events: Seq<RoundEvent>) -> bool {
    forall|i: int| 0 <= i < events.len() ==> !((#[trigger] events[i]) is LaunchedVerified)
}

/// Reset on success: whatever the attempt counter was, after a round whose
/// launch was verified it reads zero.
pub proof fn lemma_reset_on_success(state: RestartState, max_restarts: u32, reason: QuitReason)
    requires
        state.counted().attempts <= max_restarts,
    ensures
        round(state, max_restarts, RoundEvent::LaunchedVerified(reason)).state.attempts == 0,
        round(state, max_restarts, RoundEvent::LaunchedVerified(reason)).state.ever_connected,
{
}

/// Flap guard: a run for a server that has never been verified, and is not
/// verified during the run, makes at most one launch and counts at most one
/// attempt, whatever the ceiling and however many rounds are offered.
pub proof fn lemma_flap_guard(state: RestartState, max_restarts: u32, events: Seq<RoundEvent>)
    requires
        !state.ever_connected,
        never_verified(events),
    ensures
        run(state, max_restarts, events).launches <= 1,
        run(state, max_restarts, events).state.attempts <= state.attempts + 1,
        !run(state, max_restarts, events).state.ever_connected,
        events.len() > 0 ==> run(state, max_restarts, events).stopped is Some,
        run(state, max_restarts, events).launches == 1 ==> !(run(
            state,
            max_restarts,
            events,
        ).stopped == Some(StopReason::MaxRestartsReached)),
{
    if events.len() > 0 {
        let first = round(state, max_restarts, events[0]);
        assert(!(events[0] is LaunchedVerified));
        assert(first.stopped is Some);
    }
}

} // verus!

//! The process reaper: ask a process to end, wait a bounded time, then kill.
//!
//! The reaper decides; its runner delivers the signals, sleeps, probes the
//! process and reports back.

use vstd::prelude::*;
use crate::error::{McpError, SignalKind};

verus! {

/// Milliseconds between two looks at a process that was asked to end.
pub const REAP_PROBE_INTERVAL_MS: u64 = 100;

/// How often a process that was asked to end is looked at before it is killed.
pub const REAP_MAX_PROBES: u32 = 30;

/// What the reaper waits for.
#[derive(Debug, Clone, Copy, PartialEq, Eq, Structural)]
pub enum ReapPhase {
    /// The outcome of the request to terminate.
    AwaitTerminate,
    /// The outcome of a probe; `probes` counts the probes asked for so far.
    AwaitProbe { probes: u32 },
    /// The outcome of the kill.
    AwaitKill,
    /// Nothing: the reaper has finished.
    Finished,
}

/// What the runner reports.
#[derive(Debug, Clone, PartialEq, Eq)]
pub enum ReapEvent {
    /// The signal was delivered.
    SignalSent,
    /// The signal could not be delivered, for the given reason.
    SignalRefused { reason: String },
    /// The probe found the process alive.
    ProcessAlive,
    /// The probe found no such process.
    ProcessGone,
}

/// What the reaper asks its runner to do.
#[derive(Debug, PartialEq, Eq)]
pub enum ReapAction {
    /// Ask the process to terminate and report whether the signal went out.
    SendTerminate { pid: u32 },
    /// Sleep for the given milliseconds, then probe the process.
    SleepThenProbe { pid: u32, millis: u64 },
    /// Kill the process unconditionally and report whether the signal went
    /// out.
    SendKill { pid: u32 },
    /// The reaper has finished with the given result.
    Finish { result: Result<(), McpError> },
}

/// The reaper of one process.
#[derive(Debug, Clone, Copy, PartialEq, Eq, Structural)]
pub struct Reaper {
    /// The process to end.
    pub pid: u32,
    /// What the reaper waits for.
    pub phase: ReapPhase,
}

impl Reaper {
    /// The probe counter never passes its bound.
    pub open spec fn wf(self) -> bool {
        match self.phase {
            ReapPhase::AwaitProbe { probes } => 1 <= probes <= REAP_MAX_PROBES,
            _ => true,
        }
    }

    /// The probes asked for so far.
    pub open spec fn probes(self) -> nat {
        match self.phase {
            ReapPhase::AwaitTerminate => 0,
            ReapPhase::AwaitProbe { probes } => probes as nat,
            ReapPhase::AwaitKill => REAP_MAX_PROBES as nat,
            ReapPhase::Finished => 0,
        }
    }

    /// The reaper at its start, with its first action. Where the platform
    /// cannot ask a process to terminate, the reaper kills at once.
    pub open spec fn start_spec(pid: u32, graceful: bool) -> (Reaper, ReapAction) {
        if graceful {
            (Reaper { pid, phase: ReapPhase::AwaitTerminate }, ReapAction::SendTerminate { pid })
        } else {
            (Reaper { pid, phase: ReapPhase::AwaitKill }, ReapAction::SendKill { pid })
        }
    }

    /// The phase that follows `event`, and the action asked for; no action
    /// where the event is not what the reaper waits for.
    pub open spec fn step_spec(self, event: ReapEvent) -> (Reaper, Option<ReapAction>) {
        match (self.phase, event) {
            (ReapPhase::AwaitTerminate, ReapEvent::SignalSent) => (
                Reaper { phase: ReapPhase::AwaitProbe { probes: 1 }, ..self },
                Some(ReapAction::SleepThenProbe { pid: self.pid, millis: REAP_PROBE_INTERVAL_MS }),
            ),
            (ReapPhase::AwaitTerminate, ReapEvent::SignalRefused { reason }) => (
                Reaper { phase: ReapPhase::Finished, ..self },
                Some(
                    ReapAction::Finish {
                        result: Err(
                            McpError::SignalFailed {
                                signal: SignalKind::Terminate,
                                pid: self.pid,
                                reason,
                            },
                        ),
                    },
                ),
            ),
            (ReapPhase::AwaitProbe { probes }, ReapEvent::ProcessGone) => (
                Reaper { phase: ReapPhase::Finished, ..self },
                Some(ReapAction::Finish { result: Ok(()) }),
            ),
            (ReapPhase::AwaitProbe { probes }, ReapEvent::ProcessAlive) => if probes
                < REAP_MAX_PROBES {
                (
                    Reaper { phase: ReapPhase::AwaitProbe { probes: (probes + 1) as u32 }, ..self },
                    Some(
                        ReapAction::SleepThenProbe {
                            pid: self.pid,
                            millis: REAP_PROBE_INTERVAL_MS,
                        },
                    ),
                )
            } else {
                (
                    Reaper { phase: ReapPhase::AwaitKill, ..self },
                    Some(ReapAction::SendKill { pid: self.pid }),
                )
            },
            (ReapPhase::AwaitKill, ReapEvent::SignalSent) => (
                Reaper { phase: ReapPhase::Finished, ..self },
                Some(ReapAction::Finish { result: Ok(()) }),
            ),
            (ReapPhase::AwaitKill, ReapEvent::SignalRefused { reason }) => (
                Reaper { phase: ReapPhase::Finished, ..self },
                Some(
                    ReapAction::Finish {
                        result: Err(
                            McpError::SignalFailed { signal: SignalKind::Kill, pid: self.pid, reason },
                        ),
                    },
                ),
            ),
            _ => (self, None),
        }
    }

    /// Starts the reaping of `pid`. `graceful` says whether the platform can
    /// ask a process to terminate; where it cannot, the first action is the
    /// kill.
    pub fn start(pid: u32, graceful: bool) -> (r: (Reaper, ReapAction))
        ensures
            r == Reaper::start_spec(pid, graceful),
            r.0.wf(),
    {
        if graceful {
            (Reaper { pid, phase: ReapPhase::AwaitTerminate }, ReapAction::SendTerminate { pid })
        } else {
            (Reaper { pid, phase: ReapPhase::AwaitKill }, ReapAction::SendKill { pid })
        }
    }

    /// Takes in what the runner reports and says what to do next. An event
    /// that the reaper does not wait for changes nothing and asks for nothing.
    pub fn step(&mut self, event: ReapEvent) -> (action: Option<ReapAction>)
        requires
            old(self).wf(),
        ensures
            final(self).wf(),
            (*final(self), action) == old(self).step_spec(event),
    {
        match self.phase {
            ReapPhase::AwaitTerminate => match event {
                ReapEvent::SignalSent => {
                    self.phase = ReapPhase::AwaitProbe { probes: 1 };
                    Some(
                        ReapAction::SleepThenProbe {
                            pid: self.pid,
                            millis: REAP_PROBE_INTERVAL_MS,
                        },
                    )
                },
                ReapEvent::SignalRefused { reason } => {
                    self.phase = ReapPhase::Finished;
                    Some(
                        ReapAction::Finish {
                            result: Err(
                                McpError::SignalFailed {
                                    signal: SignalKind::Terminate,
                                    pid: self.pid,
                                    reason,
                                },
                            ),
                        },
                    )
                },
                _ => None,
            },
            ReapPhase::AwaitProbe { probes } => match event {
                ReapEvent::ProcessGone => {
                    self.phase = ReapPhase::Finished;
                    Some(ReapAction::Finish { result: Ok(()) })
                },
                ReapEvent::ProcessAlive => {
                    if probes < REAP_MAX_PROBES {
                        self.phase = ReapPhase::AwaitProbe { probes: probes + 1 };
                        Some(
                            ReapAction::SleepThenProbe {
                                pid: self.pid,
                                millis: REAP_PROBE_INTERVAL_MS,
                            },
                        )
                    } else {
                        self.phase = ReapPhase::AwaitKill;
                        Some(ReapAction::SendKill { pid: self.pid })
                    }
                },
                _ => None,
            },
            ReapPhase::AwaitKill => match event {
                ReapEvent::SignalSent => {
                    self.phase = ReapPhase::Finished;
                    Some(ReapAction::Finish { result: Ok(()) })
                },
                ReapEvent::SignalRefused { reason } => {
                    self.phase = ReapPhase::Finished;
                    Some(
                        ReapAction::Finish {
                            result: Err(
                                McpError::SignalFailed {
                                    signal: SignalKind::Kill,
                                    pid: self.pid,
                                    reason,
                                },
                            ),
                        },
                    )
                },
                _ => None,
            },
            ReapPhase::Finished => None,
        }
    }

    /// Whether the reaper has finished.
    pub fn is_finished(&self) -> (b: bool)
        ensures
            b == (self.phase == ReapPhase::Finished),
    {
        match self.phase {
            ReapPhase::Finished => true,
            _ => false,
        }
    }
}

/// The longest time that the reaper lets its runner sleep, all sleeps
/// together: every probe follows one sleep, and no more than the bound of
/// probes are asked for.
pub open spec fn reap_sleep_bound_ms() -> nat {
    REAP_MAX_PROBES as nat * REAP_PROBE_INTERVAL_MS as nat
}

/// Bounded wait: every sleep that the reaper asks for is one interval long and
/// counts as one more probe, and the count of probes never passes its bound.
/// So the sleeps on the way to any state add up to three seconds at most.
pub proof fn lemma_reaper_bounded(r: Reaper, event: ReapEvent)
    requires
        r.wf(),
    ensures
        r.step_spec(event).0.wf(),
        r.step_spec(event).0.probes() * REAP_PROBE_INTERVAL_MS as nat <= reap_sleep_bound_ms(),
        reap_sleep_bound_ms() == 3000,
        match r.step_spec(event).1 {
            Some(ReapAction::SleepThenProbe { pid, millis }) => millis == REAP_PROBE_INTERVAL_MS
                && r.step_spec(event).0.probes() == r.probes() + 1,
            _ => true,
        },
{
    let next = r.step_spec(event).0;
    assert(next.probes() <= REAP_MAX_PROBES);
    assert(next.probes() * 100 <= 3000);
}

} // verus!

//! The orphan sweeper: free a port that a leaked server of this application
//! still holds, and never touch the process of another application.
//!
//! The sweeper decides; its runner reads the lock file, looks at processes,
//! runs the reaper, sleeps, probes the port and reports back.

use vstd::prelude::*;
use crate::error::McpError;
use crate::lockfile::LockFileState;

verus! {

/// Milliseconds granted to the system to release a port after its holder was
/// reaped.
pub const PORT_RELEASE_SETTLE_MS: u64 = 500;

/// What the host knows of a process.
#[derive(Debug, Clone, PartialEq, Eq)]
pub struct ProcessInfo {
    /// The process identifier.
    pub pid: u32,
    /// The name of the executable.
    pub name: String,
    /// The command line.
    pub cmd: Vec<String>,
}

/// What a look at the process of a lock file found.
#[derive(Debug, Clone, Copy, PartialEq, Eq, Structural)]
pub enum HolderStatus {
    /// No such process exists.
    Dead,
    /// The process exists, but the host can tell nothing about it.
    Unknown,
    /// The process exists and is no server of this application: its
    /// identifier was given to another process.
    Foreign,
    /// The process exists and is a server of this application.
    Ours,
}

/// What a look at the process of a lock file amounts to: `alive` says whether
/// the process exists, `known` whether the host could describe it, and
/// `recognized` whether the description is that of a server of this
/// application.
pub open spec fn holder_status_of(alive: bool, known: bool, recognized: bool) -> HolderStatus {
    if !alive {
        HolderStatus::Dead
    } else if !known {
        HolderStatus::Unknown
    } else if recognized {
        HolderStatus::Ours
    } else {
        HolderStatus::Foreign
    }
}

/// Sums up a look at the process of a lock file.
pub fn classify_holder(alive: bool, known: bool, recognized: bool) -> (status: HolderStatus)
    ensures
        status == holder_status_of(alive, known, recognized),
{
    if !alive {
        HolderStatus::Dead
    } else if !known {
        HolderStatus::Unknown
    } else if recognized {
        HolderStatus::Ours
    } else {
        HolderStatus::Foreign
    }
}

/// What the sweeper waits for.
#[derive(Debug, Clone, Copy, PartialEq, Eq, Structural)]
pub enum SweepPhase {
    /// The content of the lock file.
    AwaitLock,
    /// The look at the process that the lock file names.
    AwaitInspect { pid: u32 },
    /// The deletion of a stale lock file; `cleaned` says that the sweep ends
    /// with it.
    AwaitStaleDelete { cleaned: bool },
    /// The reaping of the process that the lock file names.
    AwaitLockReap,
    /// The deletion of the lock file of a reaped process.
    AwaitReapedDelete,
    /// The end of the sleep after that deletion.
    AwaitLockSettle,
    /// The probe of the port after that sleep.
    AwaitLockPort,
    /// The holder of the port, as the system reports it.
    AwaitHolder,
    /// The reaping of that holder.
    AwaitHolderReap,
    /// The end of the sleep after that reaping.
    AwaitHolderSettle,
    /// The probe of the port after that sleep.
    AwaitHolderPort,
    /// Nothing: the sweep has finished.
    Finished,
}

/// What the runner reports.
#[derive(Debug, PartialEq, Eq)]
pub enum SweepEvent {
    /// The lock file was read.
    LockRead { lock: LockFileState },
    /// The process of the lock file was looked at.
    Inspected { status: HolderStatus },
    /// The lock file is deleted, or could not be; either way the sweep goes
    /// on.
    LockDeleted,
    /// The reaper finished.
    Reaped { result: Result<(), McpError> },
    /// The sleep is over.
    Slept,
    /// The port was probed.
    PortProbed { free: bool },
    /// The system was asked who holds the port; `recognized` says whether the
    /// holder is a server of this application.
    HolderFound { holder: Option<ProcessInfo>, recognized: bool },
}

/// What the sweeper asks its runner to do.
#[derive(Debug, PartialEq, Eq)]
pub enum SweepAction {
    /// Read the lock file of the port.
    ReadLock { port: u16 },
    /// Look at the process: does it exist, and is it a server of this
    /// application?
    InspectProcess { pid: u32 },
    /// Delete the lock file of the port; a failure is no more than a warning.
    DeleteLock { port: u16 },
    /// Run the reaper on the process.
    Reap { pid: u32 },
    /// Sleep for the given milliseconds.
    Sleep { millis: u64 },
    /// Probe whether the port is free.
    ProbePort { port: u16 },
    /// Ask the system which process holds the port.
    FindHolder { port: u16 },
    /// The sweep has finished: `Ok(true)` where something was reclaimed,
    /// `Ok(false)` where nothing needed doing.
    Finish { result: Result<bool, McpError> },
}

/// The sweep of one port.
#[derive(Debug, Clone, Copy, PartialEq, Eq, Structural)]
pub struct Sweeper {
    /// The port to free.
    pub port: u16,
    /// What the sweeper waits for.
    pub phase: SweepPhase,
}

impl Sweeper {
    /// The sweeper in another phase.
    pub open spec fn at(self, phase: SweepPhase) -> Sweeper {
        Sweeper { phase, ..self }
    }

    /// The sweeper at its start, with its first action.
    pub open spec fn start_spec(port: u16) -> (Sweeper, SweepAction) {
        (Sweeper { port, phase: SweepPhase::AwaitLock }, SweepAction::ReadLock { port })
    }

    /// The phase that follows `event`, and the action asked for; no action
    /// where the event is not what the sweeper waits for.
    pub open spec fn step_spec(self, event: SweepEvent) -> (Sweeper, Option<SweepAction>) {
        let port = self.port;
        match (self.phase, event) {
            (SweepPhase::AwaitLock, SweepEvent::LockRead { lock }) => match lock {
                LockFileState::Missing => (
                    self.at(SweepPhase::AwaitHolder),
                    Some(SweepAction::FindHolder { port }),
                ),
                LockFileState::Unparsable => (
                    self.at(SweepPhase::AwaitStaleDelete { cleaned: false }),
                    Some(SweepAction::DeleteLock { port }),
                ),
                LockFileState::Entry(entry) => (
                    self.at(SweepPhase::AwaitInspect { pid: entry.pid }),
                    Some(SweepAction::InspectProcess { pid: entry.pid }),
                ),
            },
            (SweepPhase::AwaitInspect { pid }, SweepEvent::Inspected { status }) => match status {
                HolderStatus::Dead => (
                    self.at(SweepPhase::AwaitStaleDelete { cleaned: true }),
                    Some(SweepAction::DeleteLock { port }),
                ),
                HolderStatus::Unknown => (
                    self.at(SweepPhase::AwaitStaleDelete { cleaned: false }),
                    Some(SweepAction::DeleteLock { port }),
                ),
                HolderStatus::Foreign => (
                    self.at(SweepPhase::AwaitStaleDelete { cleaned: false }),
                    Some(SweepAction::DeleteLock { port }),
                ),
                HolderStatus::Ours => (
                    self.at(SweepPhase::AwaitLockReap),
                    Some(SweepAction::Reap { pid }),
                ),
            },
            (SweepPhase::AwaitStaleDelete { cleaned }, SweepEvent::LockDeleted) => if cleaned {
                (self.at(SweepPhase::Finished), Some(SweepAction::Finish { result: Ok(true) }))
            } else {
                (self.at(SweepPhase::AwaitHolder), Some(SweepAction::FindHolder { port }))
            },
            (SweepPhase::AwaitLockReap, SweepEvent::Reaped { result }) => match result {
                Ok(_) => (
                    self.at(SweepPhase::AwaitReapedDelete),
                    Some(SweepAction::DeleteLock { port }),
                ),
                Err(e) => (
                    self.at(SweepPhase::Finished),
                    Some(SweepAction::Finish { result: Err(e) }),
                ),
            },
            (SweepPhase::AwaitReapedDelete, SweepEvent::LockDeleted) => (
                self.at(SweepPhase::AwaitLockSettle),
                Some(SweepAction::Sleep { millis: PORT_RELEASE_SETTLE_MS }),
            ),
            (SweepPhase::AwaitLockSettle, SweepEvent::Slept) => (
                self.at(SweepPhase::AwaitLockPort),
                Some(SweepAction::ProbePort { port }),
            ),
            (SweepPhase::AwaitLockPort, SweepEvent::PortProbed { free }) => if free {
                (self.at(SweepPhase::Finished), Some(SweepAction::Finish { result: Ok(true) }))
            } else {
                (self.at(SweepPhase::AwaitHolder), Some(SweepAction::FindHolder { port }))
            },
            (SweepPhase::AwaitHolder, SweepEvent::HolderFound { holder, recognized }) => match holder {
                None => (
                    self.at(SweepPhase::Finished),
                    Some(SweepAction::Finish { result: Ok(false) }),
                ),
                Some(info) => if recognized {
                    (
                        self.at(SweepPhase::AwaitHolderReap),
                        Some(SweepAction::Reap { pid: info.pid }),
                    )
                } else {
                    (
                        self.at(SweepPhase::Finished),
                        Some(
                            SweepAction::Finish {
                                result: Err(
                                    McpError::PortOccupiedByForeign {
                                        port,
                                        process_name: info.name,
                                        pid: info.pid,
                                    },
                                ),
                            },
                        ),
                    )
                },
            },
            (SweepPhase::AwaitHolderReap, SweepEvent::Reaped { result }) => match result {
                Ok(_) => (
                    self.at(SweepPhase::AwaitHolderSettle),
                    Some(SweepAction::Sleep { millis: PORT_RELEASE_SETTLE_MS }),
                ),
                Err(e) => (
                    self.at(SweepPhase::Finished),
                    Some(SweepAction::Finish { result: Err(e) }),
                ),
            },
            (SweepPhase::AwaitHolderSettle, SweepEvent::Slept) => (
                self.at(SweepPhase::AwaitHolderPort),
                Some(SweepAction::ProbePort { port }),
            ),
            (SweepPhase::AwaitHolderPort, SweepEvent::PortProbed { free }) => if free {
                (self.at(SweepPhase::Finished), Some(SweepAction::Finish { result: Ok(true) }))
            } else {
                (
                    self.at(SweepPhase::Finished),
                    Some(SweepAction::Finish { result: Err(McpError::PortStillInUse { port }) }),
                )
            },
            _ => (self, None),
        }
    }

    /// How many more steps the sweep can take from its phase at most.
    pub open spec fn steps_left(self) -> nat {
        match self.phase {
            SweepPhase::AwaitLock => 11,
            SweepPhase::AwaitInspect { pid } => 10,
            SweepPhase::AwaitLockReap => 9,
            SweepPhase::AwaitReapedDelete => 8,
            SweepPhase::AwaitLockSettle => 7,
            SweepPhase::AwaitLockPort => 6,
            SweepPhase::AwaitStaleDelete { cleaned } => 6,
            SweepPhase::AwaitHolder => 5,
            SweepPhase::AwaitHolderReap => 4,
            SweepPhase::AwaitHolderSettle => 3,
            SweepPhase::AwaitHolderPort => 2,
            SweepPhase::Finished => 0,
        }
    }

    /// Starts the sweep of `port`.
    pub fn start(port: u16) -> (r: (Sweeper, SweepAction))
        ensures
            r == Sweeper::start_spec(port),
    {
        (Sweeper { port, phase: SweepPhase::AwaitLock }, SweepAction::ReadLock { port })
    }

    /// Takes in what the runner reports and says what to do next. An event
    /// that the sweeper does not wait for changes nothing and asks for
    /// nothing.
    pub fn step(&mut self, event: SweepEvent) -> (action: Option<SweepAction>)
        ensures
            (*final(self), action) == old(self).step_spec(event),
    {
        let port = self.port;
        match self.phase {
            SweepPhase::AwaitLock => match event {
                SweepEvent::LockRead { lock } => match lock {
                    LockFileState::Missing => {
                        self.phase = SweepPhase::AwaitHolder;
                        Some(SweepAction::FindHolder { port })
                    },
                    LockFileState::Unparsable => {
                        self.phase = SweepPhase::AwaitStaleDelete { cleaned: false };
                        Some(SweepAction::DeleteLock { port })
                    },
                    LockFileState::Entry(entry) => {
                        self.phase = SweepPhase::AwaitInspect { pid: entry.pid };
                        Some(SweepAction::InspectProcess { pid: entry.pid })
                    },
                },
                _ => None,
            },
            SweepPhase::AwaitInspect { pid } => match event {
                SweepEvent::Inspected { status } => match status {
                    HolderStatus::Dead => {
                        self.phase = SweepPhase::AwaitStaleDelete { cleaned: true };
                        Some(SweepAction::DeleteLock { port })
                    },
                    HolderStatus::Unknown => {
                        self.phase = SweepPhase::AwaitStaleDelete { cleaned: false };
                        Some(SweepAction::DeleteLock { port })
                    },
                    HolderStatus::Foreign => {
                        self.phase = SweepPhase::AwaitStaleDelete { cleaned: false };
                        Some(SweepAction::DeleteLock { port })
                    },
                    HolderStatus::Ours => {
                        self.phase = SweepPhase::AwaitLockReap;
                        Some(SweepAction::Reap { pid })
                    },
                },
                _ => None,
            },
            SweepPhase::AwaitStaleDelete { cleaned } => match event {
                SweepEvent::LockDeleted => {
                    if cleaned {
                        self.phase = SweepPhase::Finished;
                        Some(SweepAction::Finish { result: Ok(true) })
                    } else {
                        self.phase = SweepPhase::AwaitHolder;
                        Some(SweepAction::FindHolder { port })
                    }
                },
                _ => None,
            },
            SweepPhase::AwaitLockReap => match event {
                SweepEvent::Reaped { result } => match result {
                    Ok(_) => {
                        self.phase = SweepPhase::AwaitReapedDelete;
                        Some(SweepAction::DeleteLock { port })
                    },
                    Err(e) => {
                        self.phase = SweepPhase::Finished;
                        Some(SweepAction::Finish { result: Err(e) })
                    },
                },
                _ => None,
            },
            SweepPhase::AwaitReapedDelete => match event {
                SweepEvent::LockDeleted => {
                    self.phase = SweepPhase::AwaitLockSettle;
                    Some(SweepAction::Sleep { millis: PORT_RELEASE_SETTLE_MS })
                },
                _ => None,
            },
            SweepPhase::AwaitLockSettle => match event {
                SweepEvent::Slept => {
                    self.phase = SweepPhase::AwaitLockPort;
                    Some(SweepAction::ProbePort { port })
                },
                _ => None,
            },
            SweepPhase::AwaitLockPort => match event {
                SweepEvent::PortProbed { free } => {
                    if free {
                        self.phase = SweepPhase::Finished;
                        Some(SweepAction::Finish { result: Ok(true) })
                    } else {
                        self.phase = SweepPhase::AwaitHolder;
                        Some(SweepAction::FindHolder { port })
                    }
                },
                _ => None,
            },
            SweepPhase::AwaitHolder => match event {
                SweepEvent::HolderFound { holder, recognized } => match holder {
                    None => {
                        self.phase = SweepPhase::Finished;
                        Some(SweepAction::Finish { result: Ok(false) })
                    },
                    Some(info) => {
                        if recognized {
                            self.phase = SweepPhase::AwaitHolderReap;
                            Some(SweepAction::Reap { pid: info.pid })
                        } else {
                            self.phase = SweepPhase::Finished;
                            Some(
                                SweepAction::Finish {
                                    result: Err(
                                        McpError::PortOccupiedByForeign {
                                            port,
                                            process_name: info.name,
                                            pid: info.pid,
                                        },
                                    ),
                                },
                            )
                        }
                    },
                },
                _ => None,
            },
            SweepPhase::AwaitHolderReap => match event {
                SweepEvent::Reaped { result } => match result {
                    Ok(_) => {
                        self.phase = SweepPhase::AwaitHolderSettle;
                        Some(SweepAction::Sleep { millis: PORT_RELEASE_SETTLE_MS })
                    },
                    Err(e) => {
                        self.phase = SweepPhase::Finished;
                        Some(SweepAction::Finish { result: Err(e) })
                    },
                },
                _ => None,
            },
            SweepPhase::AwaitHolderSettle => match event {
                SweepEvent::Slept => {
                    self.phase = SweepPhase::AwaitHolderPort;
                    Some(SweepAction::ProbePort { port })
                },
                _ => None,
            },
            SweepPhase::AwaitHolderPort => match event {
                SweepEvent::PortProbed { free } => {
                    if free {
                        self.phase = SweepPhase::Finished;
                        Some(SweepAction::Finish { result: Ok(true) })
                    } else {
                        self.phase = SweepPhase::Finished;
                        Some(SweepAction::Finish { result: Err(McpError::PortStillInUse { port }) })
                    }
                },
                _ => None,
            },
            SweepPhase::Finished => None,
        }
    }
}

/// The process that `action` asks to reap, if it asks for that.
pub open spec fn reaped_by(action: Option<SweepAction>) -> Option<u32> {
    match action {
        Some(SweepAction::Reap { pid }) => Some(pid),
        _ => None,
    }
}

/// The process that `event` reports as the holder of the port, recognized as
/// a server of this application, if it reports one.
pub open spec fn recognized_holder(event: SweepEvent) -> Option<u32> {
    match event {
        SweepEvent::HolderFound { holder: Some(info), recognized: true } => Some(info.pid),
        _ => None,
    }
}

/// The process that `event` reports as the holder of the port, not
/// recognized, if it reports one.
pub open spec fn foreign_holder(event: SweepEvent) -> Option<ProcessInfo> {
    match event {
        SweepEvent::HolderFound { holder: Some(info), recognized: false } => Some(info),
        _ => None,
    }
}

/// The sweeper reaps only what was recognized as a server of this
/// application: the process of a lock file that was inspected as ours, or a
/// holder of the port that the host recognized. A foreign holder ends the
/// sweep with an error that names it, and no reaping is asked for.
pub proof fn lemma_never_reaps_foreign(s: Sweeper, event: SweepEvent)
    ensures
        match reaped_by(s.step_spec(event).1) {
            Some(pid) => (s.phase == SweepPhase::AwaitInspect { pid } && event
                == SweepEvent::Inspected { status: HolderStatus::Ours }) || (s.phase
                == SweepPhase::AwaitHolder && recognized_holder(event) == Some(pid)),
            None => true,
        },
        match foreign_holder(event) {
            Some(info) => s.phase == SweepPhase::AwaitHolder ==> s.step_spec(event) == (
                s.at(SweepPhase::Finished),
                Some(
                    SweepAction::Finish {
                        result: Err(
                            McpError::PortOccupiedByForeign {
                                port: s.port,
                                process_name: info.name,
                                pid: info.pid,
                            },
                        ),
                    },
                ),
            ),
            None => true,
        },
{
}

/// A stale lock file is deleted and its process left alone: whenever the
/// record cannot be read, or the look at its process finds anything but a
/// live server of this application, the next action is the deletion of the
/// lock file.
pub proof fn lemma_stale_lock_is_deleted(s: Sweeper, lock: LockFileState, status: HolderStatus)
    ensures
        s.phase == SweepPhase::AwaitLock && lock is Unparsable ==> s.step_spec(
            SweepEvent::LockRead { lock },
        ).1 == Some(SweepAction::DeleteLock { port: s.port }),
        s.phase is AwaitInspect && status != HolderStatus::Ours ==> s.step_spec(
            SweepEvent::Inspected { status },
        ).1 == Some(SweepAction::DeleteLock { port: s.port }),
        forall|alive: bool, known: bool, recognized: bool|
            (#[trigger] holder_status_of(alive, known, recognized) != HolderStatus::Ours)
                <==> crate::lockfile::is_stale_spec(true, alive, known && recognized),
{
}

/// Every step that the sweeper takes brings it nearer to its end: a sweep
/// takes eleven steps at most.
pub proof fn lemma_sweep_progress(s: Sweeper, event: SweepEvent)
    ensures
        s.step_spec(event).1 is Some ==> s.step_spec(event).0.steps_left() < s.steps_left(),
        s.step_spec(event).1 is None ==> s.step_spec(event).0 == s,
        s.step_spec(event).1 is Some ==> (s.step_spec(event).1->0 is Finish <==> s.step_spec(
            event,
        ).0.phase == SweepPhase::Finished),
{
}

} // verus!

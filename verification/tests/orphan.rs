use mcp_supervisor::error::McpError;
use mcp_supervisor::lockfile::{LockEntry, LockFileState};
use mcp_supervisor::orphan::{
    HolderStatus, ProcessInfo, SweepAction, SweepEvent, SweepPhase, Sweeper,
    PORT_RELEASE_SETTLE_MS,
};

fn lock(pid: u32) -> LockFileState {
    LockFileState::Entry(LockEntry {
        port: 41700,
        pid,
        server_name: "Jan Browser MCP".to_string(),
        owner_token: "old".to_string(),
        created_at: 1,
    })
}

fn process(pid: u32, name: &str) -> ProcessInfo {
    ProcessInfo { pid, name: name.to_string(), cmd: vec![name.to_string()] }
}

#[test]
fn a_recognized_lock_holder_is_reaped() {
    assert_eq!(PORT_RELEASE_SETTLE_MS, 500);
    let (mut sweeper, first) = Sweeper::start(41700);
    assert_eq!(first, SweepAction::ReadLock { port: 41700 });
    assert_eq!(
        sweeper.step(SweepEvent::LockRead { lock: lock(321) }),
        Some(SweepAction::InspectProcess { pid: 321 })
    );
    assert_eq!(
        sweeper.step(SweepEvent::Inspected { status: HolderStatus::Ours }),
        Some(SweepAction::Reap { pid: 321 })
    );
    assert_eq!(
        sweeper.step(SweepEvent::Reaped { result: Ok(()) }),
        Some(SweepAction::DeleteLock { port: 41700 })
    );
    assert_eq!(sweeper.step(SweepEvent::LockDeleted), Some(SweepAction::Sleep { millis: 500 }));
    assert_eq!(sweeper.step(SweepEvent::Slept), Some(SweepAction::ProbePort { port: 41700 }));
    assert_eq!(
        sweeper.step(SweepEvent::PortProbed { free: true }),
        Some(SweepAction::Finish { result: Ok(true) })
    );
    assert_eq!(sweeper.phase, SweepPhase::Finished);
    assert_eq!(sweeper.step(SweepEvent::Slept), None);
}

#[test]
fn a_dead_lock_holder_leaves_a_stale_lock() {
    let (mut sweeper, _) = Sweeper::start(41700);
    sweeper.step(SweepEvent::LockRead { lock: lock(321) });
    assert_eq!(
        sweeper.step(SweepEvent::Inspected { status: HolderStatus::Dead }),
        Some(SweepAction::DeleteLock { port: 41700 })
    );
    assert_eq!(
        sweeper.step(SweepEvent::LockDeleted),
        Some(SweepAction::Finish { result: Ok(true) })
    );
}

#[test]
fn a_reused_pid_is_not_reaped() {
    for status in [HolderStatus::Foreign, HolderStatus::Unknown] {
        let (mut sweeper, _) = Sweeper::start(41700);
        sweeper.step(SweepEvent::LockRead { lock: lock(321) });
        assert_eq!(
            sweeper.step(SweepEvent::Inspected { status }),
            Some(SweepAction::DeleteLock { port: 41700 })
        );
        assert_eq!(
            sweeper.step(SweepEvent::LockDeleted),
            Some(SweepAction::FindHolder { port: 41700 })
        );
        assert_eq!(
            sweeper.step(SweepEvent::HolderFound { holder: None, recognized: false }),
            Some(SweepAction::Finish { result: Ok(false) })
        );
    }
}

#[test]
fn an_unparsable_lock_is_deleted() {
    let (mut sweeper, _) = Sweeper::start(8080);
    assert_eq!(
        sweeper.step(SweepEvent::LockRead { lock: LockFileState::Unparsable }),
        Some(SweepAction::DeleteLock { port: 8080 })
    );
    assert_eq!(sweeper.step(SweepEvent::LockDeleted), Some(SweepAction::FindHolder { port: 8080 }));
}

#[test]
fn a_foreign_holder_is_named_and_left_alone() {
    let (mut sweeper, _) = Sweeper::start(41700);
    assert_eq!(
        sweeper.step(SweepEvent::LockRead { lock: LockFileState::Missing }),
        Some(SweepAction::FindHolder { port: 41700 })
    );
    let action = sweeper.step(SweepEvent::HolderFound {
        holder: Some(process(4242, "nginx")),
        recognized: false,
    });
    match action {
        Some(SweepAction::Finish { result: Err(e) }) => {
            assert_eq!(
                e,
                McpError::PortOccupiedByForeign {
                    port: 41700,
                    process_name: "nginx".to_string(),
                    pid: 4242,
                }
            );
            assert!(e.message().contains("nginx"));
            assert!(e.message().contains("4242"));
        },
        other => panic!("unexpected action {other:?}"),
    }
    assert_eq!(sweeper.phase, SweepPhase::Finished);
    assert_eq!(sweeper.step(SweepEvent::Reaped { result: Ok(()) }), None);
}

#[test]
fn a_recognized_holder_without_lock_is_reaped() {
    let (mut sweeper, _) = Sweeper::start(41700);
    sweeper.step(SweepEvent::LockRead { lock: LockFileState::Missing });
    assert_eq!(
        sweeper.step(SweepEvent::HolderFound {
            holder: Some(process(99, "jan-mcp")),
            recognized: true,
        }),
        Some(SweepAction::Reap { pid: 99 })
    );
    assert_eq!(
        sweeper.step(SweepEvent::Reaped { result: Ok(()) }),
        Some(SweepAction::Sleep { millis: 500 })
    );
    assert_eq!(sweeper.step(SweepEvent::Slept), Some(SweepAction::ProbePort { port: 41700 }));
    assert_eq!(
        sweeper.step(SweepEvent::PortProbed { free: false }),
        Some(SweepAction::Finish { result: Err(McpError::PortStillInUse { port: 41700 }) })
    );
}

#[test]
fn a_port_that_stays_taken_after_the_lock_path_falls_back() {
    let (mut sweeper, _) = Sweeper::start(41700);
    sweeper.step(SweepEvent::LockRead { lock: lock(10) });
    sweeper.step(SweepEvent::Inspected { status: HolderStatus::Ours });
    sweeper.step(SweepEvent::Reaped { result: Ok(()) });
    sweeper.step(SweepEvent::LockDeleted);
    sweeper.step(SweepEvent::Slept);
    assert_eq!(
        sweeper.step(SweepEvent::PortProbed { free: false }),
        Some(SweepAction::FindHolder { port: 41700 })
    );
    assert_eq!(
        sweeper.step(SweepEvent::HolderFound {
            holder: Some(process(11, "jan-mcp")),
            recognized: true,
        }),
        Some(SweepAction::Reap { pid: 11 })
    );
    sweeper.step(SweepEvent::Reaped { result: Ok(()) });
    sweeper.step(SweepEvent::Slept);
    assert_eq!(
        sweeper.step(SweepEvent::PortProbed { free: true }),
        Some(SweepAction::Finish { result: Ok(true) })
    );
}

#[test]
fn a_failed_reaping_ends_the_sweep() {
    let failure = McpError::SignalFailed {
        signal: mcp_supervisor::error::SignalKind::Terminate,
        pid: 10,
        reason: "EPERM".to_string(),
    };
    let (mut sweeper, _) = Sweeper::start(41700);
    sweeper.step(SweepEvent::LockRead { lock: lock(10) });
    sweeper.step(SweepEvent::Inspected { status: HolderStatus::Ours });
    assert_eq!(
        sweeper.step(SweepEvent::Reaped { result: Err(failure.clone()) }),
        Some(SweepAction::Finish { result: Err(failure.clone()) })
    );
    let (mut fallback, _) = Sweeper::start(41700);
    fallback.step(SweepEvent::LockRead { lock: LockFileState::Missing });
    fallback.step(SweepEvent::HolderFound { holder: Some(process(10, "x")), recognized: true });
    assert_eq!(
        fallback.step(SweepEvent::Reaped { result: Err(failure.clone()) }),
        Some(SweepAction::Finish { result: Err(failure) })
    );
}

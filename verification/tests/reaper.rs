use mcp_supervisor::error::{McpError, SignalKind};
use mcp_supervisor::reaper::{
    ReapAction, ReapEvent, ReapPhase, Reaper, REAP_MAX_PROBES, REAP_PROBE_INTERVAL_MS,
};

#[test]
fn a_process_that_ends_in_time_is_not_killed() {
    let (mut reaper, first) = Reaper::start(77, true);
    assert_eq!(first, ReapAction::SendTerminate { pid: 77 });
    assert_eq!(
        reaper.step(ReapEvent::SignalSent),
        Some(ReapAction::SleepThenProbe { pid: 77, millis: 100 })
    );
    assert_eq!(
        reaper.step(ReapEvent::ProcessAlive),
        Some(ReapAction::SleepThenProbe { pid: 77, millis: 100 })
    );
    assert_eq!(reaper.step(ReapEvent::ProcessGone), Some(ReapAction::Finish { result: Ok(()) }));
    assert!(reaper.is_finished());
    assert_eq!(reaper.step(ReapEvent::ProcessGone), None);
}

#[test]
fn a_stubborn_process_is_killed_after_thirty_probes() {
    assert_eq!(REAP_MAX_PROBES, 30);
    assert_eq!(REAP_PROBE_INTERVAL_MS, 100);
    let (mut reaper, _) = Reaper::start(9, true);
    let mut sleeps: u64 = 0;
    let mut action = reaper.step(ReapEvent::SignalSent);
    while let Some(ReapAction::SleepThenProbe { pid, millis }) = action {
        assert_eq!(pid, 9);
        sleeps += millis;
        action = reaper.step(ReapEvent::ProcessAlive);
    }
    assert_eq!(sleeps, 3000);
    assert_eq!(action, Some(ReapAction::SendKill { pid: 9 }));
    assert_eq!(reaper.phase, ReapPhase::AwaitKill);
    assert_eq!(reaper.step(ReapEvent::SignalSent), Some(ReapAction::Finish { result: Ok(()) }));
    assert!(reaper.is_finished());
}

#[test]
fn signal_failures_carry_pid_and_reason() {
    let (mut reaper, _) = Reaper::start(5, true);
    let action = reaper.step(ReapEvent::SignalRefused { reason: "EPERM".to_string() });
    let expected = McpError::SignalFailed {
        signal: SignalKind::Terminate,
        pid: 5,
        reason: "EPERM".to_string(),
    };
    assert_eq!(action, Some(ReapAction::Finish { result: Err(expected.clone()) }));
    assert_eq!(expected.message(), "Failed to send SIGTERM to PID 5: EPERM");

    let (mut killer, first) = Reaper::start(6, false);
    assert_eq!(first, ReapAction::SendKill { pid: 6 });
    let action = killer.step(ReapEvent::SignalRefused { reason: "ESRCH".to_string() });
    assert_eq!(
        action,
        Some(ReapAction::Finish {
            result: Err(McpError::SignalFailed {
                signal: SignalKind::Kill,
                pid: 6,
                reason: "ESRCH".to_string(),
            }),
        })
    );
}

#[test]
fn stray_events_change_nothing() {
    let (mut reaper, _) = Reaper::start(1, true);
    let before = reaper;
    assert_eq!(reaper.step(ReapEvent::ProcessAlive), None);
    assert_eq!(reaper.step(ReapEvent::ProcessGone), None);
    assert_eq!(reaper, before);
    reaper.step(ReapEvent::SignalSent);
    let probing = reaper;
    assert_eq!(reaper.step(ReapEvent::SignalSent), None);
    assert_eq!(reaper.step(ReapEvent::SignalRefused { reason: String::new() }), None);
    assert_eq!(reaper, probing);
}

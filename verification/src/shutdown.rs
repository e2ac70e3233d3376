//! The shutdown of the whole fleet: a graceful cancel for every server, within
//! timeouts that depend on why the fleet is stopped, and the reaper for those
//! that do not answer.

use vstd::prelude::*;
use core::time::Duration;
use crate::table::NameTable;
use crate::time::{duration_millis, duration_of_millis, duration_of_secs};

verus! {

/// Why the fleet is being stopped; it decides how patient the shutdown is.
#[derive(Debug, Clone, Copy, PartialEq, Eq, Structural)]
pub enum ShutdownContext {
    /// The application is closing: be fast.
    AppExit,
    /// The user restarts the servers: be thorough.
    ManualRestart,
    /// Data is being deleted: be very thorough.
    FactoryReset,
}

impl ShutdownContext {
    /// Milliseconds granted to one server's graceful cancel.
    pub open spec fn per_server_timeout_ms(self) -> nat {
        match self {
            ShutdownContext::AppExit => 500,
            ShutdownContext::ManualRestart => 2000,
            ShutdownContext::FactoryReset => 5000,
        }
    }

    /// Milliseconds granted to all graceful cancels together.
    pub open spec fn overall_timeout_ms(self) -> nat {
        match self {
            ShutdownContext::AppExit => 1500,
            ShutdownContext::ManualRestart => 5000,
            ShutdownContext::FactoryReset => 10000,
        }
    }

    /// The time granted to one server's graceful cancel: half a second at
    /// the exit of the application, two seconds for a restart, five for a
    /// reset.
    pub open spec fn per_server_timeout_spec(self) -> Duration {
        match self {
            ShutdownContext::AppExit => duration_of_millis(500),
            ShutdownContext::ManualRestart => duration_of_secs(2),
            ShutdownContext::FactoryReset => duration_of_secs(5),
        }
    }

    /// The time granted to all graceful cancels together: one and a half
    /// seconds at the exit of the application, five seconds for a restart,
    /// ten for a reset.
    pub open spec fn overall_timeout_spec(self) -> Duration {
        match self {
            ShutdownContext::AppExit => duration_of_millis(1500),
            ShutdownContext::ManualRestart => duration_of_secs(5),
            ShutdownContext::FactoryReset => duration_of_secs(10),
        }
    }

    /// The time one server gets to answer a graceful cancel.
    pub fn per_server_timeout(&self) -> (d: Duration)
        ensures
            d == self.per_server_timeout_spec(),
            duration_millis(d) == self.per_server_timeout_ms(),
    {
        match self {
            ShutdownContext::AppExit => Duration::from_millis(500),
            ShutdownContext::ManualRestart => Duration::from_secs(2),
            ShutdownContext::FactoryReset => Duration::from_secs(5),
        }
    }

    /// The time all graceful cancels get together.
    pub fn overall_timeout(&self) -> (d: Duration)
        ensures
            d == self.overall_timeout_spec(),
            duration_millis(d) == self.overall_timeout_ms(),
            self.overall_timeout_ms() > self.per_server_timeout_ms(),
    {
        match self {
            ShutdownContext::AppExit => Duration::from_millis(1500),
            ShutdownContext::ManualRestart => Duration::from_secs(5),
            ShutdownContext::FactoryReset => Duration::from_secs(10),
        }
    }
}

/// Milliseconds granted to the monitors to notice that they were aborted.
pub const MONITOR_ABORT_SETTLE_MS: u64 = 50;

/// Milliseconds granted to a cancelled bridge server before its lock file is
/// deleted.
pub const LOCK_RELEASE_SETTLE_MS: u64 = 100;

/// Milliseconds granted to the system at the end of a shutdown.
pub const FINAL_SETTLE_MS: u64 = 200;

/// What follows the cancel of one server.
#[derive(Debug, Clone, Copy, PartialEq, Eq, Structural)]
pub struct CancelFollowUp {
    /// Milliseconds to sleep first.
    pub settle_ms: u64,
    /// The port whose lock file is then deleted, whatever the cancel gave.
    pub delete_lock: Option<u16>,
}

/// What follows the cancel of a server whose lock file guards `port`: the
/// lock file is deleted whether or not the cancel succeeded, after a short
/// sleep where it did.
pub open spec fn cancel_follow_up(port: Option<u16>, success: bool) -> CancelFollowUp {
    match port {
        Some(p) => CancelFollowUp {
            settle_ms: if success {
                LOCK_RELEASE_SETTLE_MS
            } else {
                0
            },
            delete_lock: Some(p),
        },
        None => CancelFollowUp { settle_ms: 0, delete_lock: None },
    }
}

/// Decides what follows the cancel of one server.
pub fn after_cancel(port: Option<u16>, success: bool) -> (r: CancelFollowUp)
    ensures
        r == cancel_follow_up(port, success),
{
    match port {
        Some(p) => CancelFollowUp {
            settle_ms: if success {
                LOCK_RELEASE_SETTLE_MS
            } else {
                0
            },
            delete_lock: Some(p),
        },
        None => CancelFollowUp { settle_ms: 0, delete_lock: None },
    }
}

/// What the cancel task of one server reported.
#[derive(Debug, Clone, PartialEq, Eq)]
pub struct CancelReport {
    /// The server.
    pub name: String,
    /// Whether the cancel came back in time and without an error.
    pub success: bool,
}

/// The names among `reports` whose cancel failed, in order. A task that did
/// not come back gives no report and no name.
pub open spec fn failed_in(reports: Seq<Option<CancelReport>>) -> Seq<Seq<char>>
    decreases reports.len(),
{
    if reports.len() == 0 {
        Seq::empty()
    } else {
        let earlier = failed_in(reports.drop_last());
        match reports.last() {
            Some(report) => if report.success {
                earlier
            } else {
                earlier.push(report.name@)
            },
            None => earlier,
        }
    }
}

/// The names of the servers that did not stop gracefully: all of them where
/// the cancels as a whole ran out of time, and otherwise those whose own
/// cancel failed.
pub open spec fn failed_servers_spec(
    names: Seq<Seq<char>>,
    reports: Option<Seq<Option<CancelReport>>>,
) -> Seq<Seq<char>> {
    match reports {
        None => names,
        Some(reports) => failed_in(reports),
    }
}

/// The processes to reap for the servers `failed`, in order: every one whose
/// process is known.
pub open spec fn to_reap(failed: Seq<Seq<char>>, pids: Map<Seq<char>, u32>) -> Seq<
    (Seq<char>, u32),
>
    decreases failed.len(),
{
    if failed.len() == 0 {
        Seq::empty()
    } else {
        let earlier = to_reap(failed.drop_last(), pids);
        if pids.contains_key(failed.last()) {
            earlier.push((failed.last(), pids[failed.last()]))
        } else {
            earlier
        }
    }
}

/// The names that `names` holds.
pub open spec fn names_view(names: Seq<String>) -> Seq<Seq<char>> {
    Seq::new(names.len(), |i: int| names[i]@)
}

/// The pairs of name and process that `list` holds.
pub open spec fn reap_list_view(list: Seq<(String, u32)>) -> Seq<(Seq<char>, u32)> {
    Seq::new(list.len(), |i: int| (list[i].0@, list[i].1))
}

/// The servers that did not stop gracefully. `reports` is none where the
/// cancels as a whole ran out of time; then every server counts as failed.
pub fn failed_servers(names: &Vec<String>, reports: Option<&Vec<Option<CancelReport>>>) -> (r:
    Vec<String>)
    ensures
        names_view(r@) == failed_servers_spec(
            names_view(names@),
            match reports {
                Some(reports) => Some(reports@),
                None => None,
            },
        ),
{
    match reports {
        None => {
            let r = names.clone();
            assert(names_view(r@) =~= names_view(names@));
            r
        },
        Some(reports) => {
            let mut out: Vec<String> = Vec::new();
            let mut i: usize = 0;
            assert(reports@.subrange(0, 0) =~= Seq::<Option<CancelReport>>::empty());
            assert(names_view(out@) =~= failed_in(reports@.subrange(0, 0)));
            while i < reports.len()
                invariant
                    0 <= i <= reports@.len(),
                    names_view(out@) == failed_in(reports@.subrange(0, i as int)),
                decreases reports@.len() - i,
            {
                let ghost before = out@;
                assert(reports@.subrange(0, i + 1).drop_last() =~= reports@.subrange(0, i as int));
                assert(reports@.subrange(0, i + 1).last() == reports@[i as int]);
                match &reports[i] {
                    Some(report) => {
                        if !report.success {
                            out.push(report.name.clone());
                            assert(names_view(out@) =~= names_view(before).push(report.name@));
                        }
                    },
                    None => {},
                }
                i = i + 1;
            }
            assert(reports@.subrange(0, i as int) =~= reports@);
            out
        },
    }
}

/// The processes to reap after the graceful cancels: for every failed server
/// whose process is known, that process.
pub fn force_kill_list(failed: &Vec<String>, pids: &NameTable<u32>) -> (r: Vec<(String, u32)>)
    requires
        pids.wf(),
    ensures
        reap_list_view(r@) == to_reap(names_view(failed@), pids@),
{
    let mut out: Vec<(String, u32)> = Vec::new();
    let mut i: usize = 0;
    let ghost all = names_view(failed@);
    assert(all.subrange(0, 0) =~= Seq::<Seq<char>>::empty());
    assert(reap_list_view(out@) =~= to_reap(all.subrange(0, 0), pids@));
    while i < failed.len()
        invariant
            pids.wf(),
            0 <= i <= failed@.len(),
            all == names_view(failed@),
            reap_list_view(out@) == to_reap(all.subrange(0, i as int), pids@),
        decreases failed@.len() - i,
    {
        let ghost before = out@;
        assert(all.subrange(0, i + 1).drop_last() =~= all.subrange(0, i as int));
        assert(all.subrange(0, i + 1).last() == failed@[i as int]@);
        match pids.get(failed[i].as_str()) {
            Some(pid) => {
                out.push((failed[i].clone(), *pid));
                assert(reap_list_view(out@) =~= reap_list_view(before).push(
                    (failed@[i as int]@, *pid),
                ));
            },
            None => {},
        }
        i = i + 1;
    }
    assert(all.subrange(0, i as int) =~= all);
    out
}

} // verus!

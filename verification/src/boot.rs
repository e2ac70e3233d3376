//! The boot of the fleet: which servers the configuration asks to start, and
//! how the starts are summed up.

use vstd::prelude::*;
use serde_json::Value;
use crate::config::{active_status, extract_active_status, servers_key};
use crate::error::McpError;
use crate::json::{
    json_error_text, json_member, json_object, object_entries, object_pairs, parse_json,
    parsed_json, member,
};
use crate::table::keys_distinct;

verus! {

/// The servers among `entries` that are to be started, in order: every one
/// whose configuration does not declare `active` as false.
pub open spec fn startable(entries: Seq<(Seq<char>, Value)>) -> Seq<(Seq<char>, Value)>
    decreases entries.len(),
{
    if entries.len() == 0 {
        Seq::empty()
    } else {
        let earlier = startable(entries.drop_last());
        if active_status(entries.last().1) == Some(false) {
            earlier
        } else {
            earlier.push(entries.last())
        }
    }
}

/// The servers that the configuration `config` holds, as pairs of name and
/// configuration: the members of its `mcpServers`, and no servers where it
/// has no such member. It holds nothing that can be read where it is no
/// object itself, or holds something else than an object as `mcpServers`.
pub open spec fn configured_servers(config: Value) -> Option<Seq<(Seq<char>, Value)>> {
    if json_object(config) is None {
        None
    } else {
        match json_member(config, servers_key()) {
            Some(servers) => match json_object(servers) {
                Some(m) => Some(object_entries(m)),
                None => None,
            },
            None => Some(Seq::empty()),
        }
    }
}

/// The pairs of name and configuration that `list` holds.
pub open spec fn server_list_view(list: Seq<(String, Value)>) -> Seq<(Seq<char>, Value)> {
    Seq::new(list.len(), |i: int| (list[i].0@, list[i].1))
}

/// Every server that is to be started is one of the configured servers.
pub proof fn lemma_startable_from_entries(entries: Seq<(Seq<char>, Value)>, i: int)
    requires
        0 <= i < startable(entries).len(),
    ensures
        exists|j: int|
            0 <= j < entries.len() && #[trigger] entries[j] == startable(entries)[i]
                && active_status(entries[j].1) != Some(false),
    decreases entries.len(),
{
    if entries.len() > 0 {
        let earlier = startable(entries.drop_last());
        if i < earlier.len() {
            lemma_startable_from_entries(entries.drop_last(), i);
            let j = choose|j: int|
                0 <= j < entries.drop_last().len() && #[trigger] entries.drop_last()[j] == earlier[i]
                    && active_status(entries.drop_last()[j].1) != Some(false);
            assert(entries[j] == startable(entries)[i]);
        } else {
            assert(entries[entries.len() - 1] == startable(entries)[i]);
        }
    }
}

/// A server appears among those to be started as often as among the
/// configured ones at most: where no name is configured twice, none is
/// started twice.
pub proof fn lemma_startable_distinct(entries: Seq<(Seq<char>, Value)>)
    requires
        keys_distinct(entries),
    ensures
        keys_distinct(startable(entries)),
        forall|i: int|
            0 <= i < startable(entries).len() ==> exists|j: int|
                0 <= j < entries.len() && #[trigger] entries[j] == (#[trigger] startable(
                    entries,
                )[i]),
    decreases entries.len(),
{
    if entries.len() > 0 {
        let shorter = entries.drop_last();
        let earlier = startable(shorter);
        assert(keys_distinct(shorter)) by {
            assert forall|i: int, j: int| 0 <= i < j < shorter.len() implies (#[trigger] shorter[i]).0
                != (#[trigger] shorter[j]).0 by {
                assert(entries[i].0 != entries[j].0);
            }
        }
        lemma_startable_distinct(shorter);
        let all = startable(entries);
        assert forall|i: int| 0 <= i < all.len() implies exists|j: int|
            0 <= j < entries.len() && #[trigger] entries[j] == (#[trigger] all[i]) by {
            lemma_startable_from_entries(entries, i);
        }
        assert forall|a: int, b: int| 0 <= a < b < all.len() implies (#[trigger] all[a]).0 != (
        #[trigger] all[b]).0 by {
            if b < earlier.len() {
                assert(earlier[a].0 != earlier[b].0);
            } else {
                lemma_startable_from_entries(shorter, a);
                let j = choose|j: int|
                    0 <= j < shorter.len() && #[trigger] shorter[j] == earlier[a] && active_status(
                        shorter[j].1,
                    ) != Some(false);
                assert(entries[j].0 != entries[entries.len() - 1].0);
            }
        }
    }
}

/// Picks from a configuration the servers that are to be started: every
/// member of `mcpServers` that does not declare `active` as false, in the
/// order in which the object hands its members out. No name occurs twice in
/// the result. A configuration without `mcpServers` starts nothing; one that
/// is no object, or holds something else than an object there, is refused.
pub fn servers_in(config: &Value) -> (r: Result<Vec<(String, Value)>, McpError>)
    ensures
        match r {
            Ok(list) => configured_servers(*config) matches Some(entries) && server_list_view(
                list@,
            ) == startable(entries) && keys_distinct(server_list_view(list@)),
            Err(McpError::NoServers) => configured_servers(*config) is None,
            Err(_) => false,
        },
{
    if config.as_object().is_none() {
        return Err(McpError::NoServers);
    }
    let server_map = match member(config, "mcpServers") {
        Some(servers) => match servers.as_object() {
            Some(m) => m,
            None => {
                return Err(McpError::NoServers);
            },
        },
        None => {
            let none: Vec<(String, Value)> = Vec::new();
            assert(server_list_view(none@) =~= startable(Seq::empty()));
            return Ok(none);
        },
    };
    let pairs = object_pairs(server_map);
    let ghost entries = object_entries(*server_map);
    let mut list: Vec<(String, Value)> = Vec::new();
    let mut i: usize = 0;
    assert(entries.subrange(0, 0) =~= Seq::<(Seq<char>, Value)>::empty());
    assert(server_list_view(list@) =~= startable(entries.subrange(0, 0)));
    while i < pairs.len()
        invariant
            0 <= i <= pairs@.len(),
            pairs@.len() == entries.len(),
            forall|k: int|
                0 <= k < pairs@.len() ==> (#[trigger] pairs@[k]).0@ == entries[k].0 && *pairs@[k].1
                    == entries[k].1,
            server_list_view(list@) == startable(entries.subrange(0, i as int)),
        decreases pairs@.len() - i,
    {
        let (name, server) = pairs[i];
        let ghost before = list@;
        assert(entries.subrange(0, i + 1).drop_last() =~= entries.subrange(0, i as int));
        assert(entries.subrange(0, i + 1).last() == entries[i as int]);
        if extract_active_status(server) != Some(false) {
            list.push((name.clone(), server.clone()));
            assert(server_list_view(list@) =~= server_list_view(before).push(entries[i as int]));
        }
        i = i + 1;
    }
    assert(entries.subrange(0, i as int) =~= entries);
    proof {
        assert(keys_distinct(entries)) by {
            assert forall|a: int, b: int| 0 <= a < b < entries.len() implies (#[trigger] entries[a]).0
                != (#[trigger] entries[b]).0 by {
                assert(pairs@[a].0@ != pairs@[b].0@);
            }
        }
        lemma_startable_distinct(entries);
    }
    Ok(list)
}

/// Reads from the configuration text which servers are to be started: what
/// `servers_in` picks from the configuration that the text spells. A text
/// that is no valid JSON is refused.
pub fn servers_to_start(config_text: &str) -> (r: Result<Vec<(String, Value)>, McpError>)
    ensures
        match r {
            Ok(list) => parsed_json(config_text@) matches Some(config) && configured_servers(
                config,
            ) matches Some(entries) && server_list_view(list@) == startable(entries)
                && keys_distinct(server_list_view(list@)),
            Err(McpError::ConfigParse { reason }) => parsed_json(config_text@) is None,
            Err(McpError::NoServers) => parsed_json(config_text@) matches Some(config)
                && configured_servers(config) is None,
            Err(_) => false,
        },
{
    match parse_json(config_text) {
        Ok(config) => servers_in(&config),
        Err(e) => Err(McpError::ConfigParse { reason: json_error_text(&e) }),
    }
}

/// How the first start of one server ended.
#[derive(Debug, Clone, Copy, PartialEq, Eq, Structural)]
pub enum BootOutcome {
    /// The server is up.
    Started,
    /// The launch failed.
    Failed,
    /// The task of the launch did not come back.
    Lost,
}

/// The count of the starts that succeeded and of those that did not.
#[derive(Debug, Clone, Copy, PartialEq, Eq, Structural)]
pub struct BootSummary {
    /// The servers that are up.
    pub successful: usize,
    /// The servers that are not: failed launches and lost tasks.
    pub failed: usize,
}

/// How many of `outcomes` are a successful start.
pub open spec fn count_started(outcomes: Seq<BootOutcome>) -> nat
    decreases outcomes.len(),
{
    if outcomes.len() == 0 {
        0
    } else {
        count_started(outcomes.drop_last()) + if outcomes.last() == BootOutcome::Started {
            1nat
        } else {
            0nat
        }
    }
}

/// Sums up the first starts of the fleet. A failed start is counted and
/// nothing more: the boot as a whole succeeds whatever the counts are.
pub fn summarize_boot(outcomes: &Vec<BootOutcome>) -> (summary: BootSummary)
    ensures
        summary.successful == count_started(outcomes@),
        summary.successful + summary.failed == outcomes@.len(),
{
    let mut successful: usize = 0;
    let mut failed: usize = 0;
    let mut i: usize = 0;
    assert(outcomes@.subrange(0, 0) =~= Seq::<BootOutcome>::empty());
    while i < outcomes.len()
        invariant
            0 <= i <= outcomes@.len(),
            successful == count_started(outcomes@.subrange(0, i as int)),
            successful + failed == i,
        decreases outcomes@.len() - i,
    {
        assert(outcomes@.subrange(0, i + 1).drop_last() =~= outcomes@.subrange(0, i as int));
        match outcomes[i] {
            BootOutcome::Started => {
                successful = successful + 1;
            },
            _ => {
                failed = failed + 1;
            },
        }
        i = i + 1;
    }
    assert(outcomes@.subrange(0, i as int) =~= outcomes@);
    BootSummary { successful, failed }
}

/// What follows the first start of a server.
#[derive(Debug, Clone, Copy, PartialEq, Eq, Structural)]
pub enum FirstStartFollowUp {
    /// The server is up: its health monitor is attached, and behind it the
    /// restart engine, so that a failed probe leads to a relaunch.
    AttachMonitorAndEngine,
    /// The start failed: nothing is attached, and the other servers go on.
    Nothing,
}

/// Decides what follows the first start of a server: a server that is up
/// gets its health monitor and its restart engine, and a server whose start
/// failed gets nothing.
pub fn after_first_start(launched: bool) -> (next: FirstStartFollowUp)
    ensures
        next == (if launched {
            FirstStartFollowUp::AttachMonitorAndEngine
        } else {
            FirstStartFollowUp::Nothing
        }),
{
    if launched {
        FirstStartFollowUp::AttachMonitorAndEngine
    } else {
        FirstStartFollowUp::Nothing
    }
}

} // verus!

//! What the supervisor tells the user interface.

use vstd::prelude::*;
use serde_json::Value;
use crate::json::{
    count_value, json_count, json_object, json_text, object_map, object_value, text_value,
};
use crate::models::ElicitRequest;

verus! {

/// An event for the user interface.
#[derive(Debug, Clone)]
pub enum SupervisorEvent {
    /// A server connected, or its state changed in a way that shows.
    Update { server: String },
    /// A server asks the user for input.
    Elicitation { request: ElicitRequest },
    /// The restart loop of a server gave up.
    MaxRestartsReached { server: String, max_restarts: u32 },
}

/// The object `m` holds the text `text` under `key`.
pub open spec fn holds_text(m: Map<Seq<char>, Value>, key: Seq<char>, text: Seq<char>) -> bool {
    m.contains_key(key) && json_text(m[key]) == Some(text)
}

impl SupervisorEvent {
    /// The name under which the event is emitted.
    pub open spec fn name_spec(self) -> Seq<char> {
        match self {
            SupervisorEvent::Update { server } => "mcp-update"@,
            SupervisorEvent::Elicitation { request } => "mcp-elicitation"@,
            SupervisorEvent::MaxRestartsReached { server, max_restarts } => "mcp_max_restarts_reached"@,
        }
    }

    /// `members` are the members of the payload of the event: the server for
    /// an update; the server and the ceiling for a loop that gave up; and the
    /// identifier, the server, the message and the schema for an elicitation.
    pub open spec fn carries(self, members: Map<Seq<char>, Value>) -> bool {
        match self {
            SupervisorEvent::Update { server } => {
                &&& members.dom() =~= set!["server"@]
                &&& holds_text(members, "server"@, server@)
            },
            SupervisorEvent::Elicitation { request } => {
                &&& members.dom() =~= set!["id"@, "server"@, "message"@, "requestedSchema"@]
                &&& holds_text(members, "id"@, request.id@)
                &&& holds_text(members, "server"@, request.server@)
                &&& holds_text(members, "message"@, request.message@)
                &&& members["requestedSchema"@] == request.requested_schema
            },
            SupervisorEvent::MaxRestartsReached { server, max_restarts } => {
                &&& members.dom() =~= set!["server"@, "max_restarts"@]
                &&& holds_text(members, "server"@, server@)
                &&& json_count(members["max_restarts"@]) == Some(max_restarts as u64)
            },
        }
    }

    /// The name under which the event is emitted.
    pub fn name(&self) -> (r: &'static str)
        ensures
            r@ == self.name_spec(),
    {
        match self {
            SupervisorEvent::Update { server } => "mcp-update",
            SupervisorEvent::Elicitation { request } => "mcp-elicitation",
            SupervisorEvent::MaxRestartsReached { server, max_restarts } => "mcp_max_restarts_reached",
        }
    }

    /// The payload with which the event is emitted: a JSON object with the
    /// members that the event carries.
    pub fn payload(&self) -> (r: Value)
        ensures
            json_object(r) matches Some(m) && self.carries(object_map(m)),
    {
        proof {
            reveal_strlit("id");
            reveal_strlit("server");
            reveal_strlit("message");
            reveal_strlit("requestedSchema");
            reveal_strlit("max_restarts");
            assert("id"@.len() == 2);
            assert("server"@.len() == 6);
            assert("message"@.len() == 7);
            assert("requestedSchema"@.len() == 15);
            assert("max_restarts"@.len() == 12);
        }
        let mut members = serde_json::Map::new();
        assert(object_map(members) =~= Map::<Seq<char>, Value>::empty());
        match self {
            SupervisorEvent::Update { server } => {
                members.insert("server".to_owned(), text_value(server.as_str()));
            },
            SupervisorEvent::Elicitation { request } => {
                members.insert("id".to_owned(), text_value(request.id.as_str()));
                members.insert("server".to_owned(), text_value(request.server.as_str()));
                members.insert("message".to_owned(), text_value(request.message.as_str()));
                members.insert("requestedSchema".to_owned(), request.requested_schema.clone());
            },
            SupervisorEvent::MaxRestartsReached { server, max_restarts } => {
                members.insert("server".to_owned(), text_value(server.as_str()));
                members.insert("max_restarts".to_owned(), count_value(*max_restarts as u64));
            },
        }
        object_value(members)
    }
}

} // verus!

//! The elicitation bridge: a server asks the user for input, and exactly one
//! of a reply, a timeout or a lost channel ends the request.
//!
//! The bridge keeps the pending requests by identifier, each with the sending
//! end of the channel on which the reply travels. Whoever takes a request out
//! of the table ends it; a second taker finds nothing.

use vstd::prelude::*;
use serde_json::Value;
use crate::events::SupervisorEvent;
use crate::models::{ElicitAction, ElicitRequest, ElicitResponse};
use crate::table::NameTable;

verus! {

/// Seconds that a server waits for the user before the request counts as
/// cancelled.
pub const ELICITATION_TIMEOUT_SECS: u64 = 300;

/// A fresh identifier: `Uuid::new_v4` makes a random UUID, and its `Display`
/// form writes it hyphenated, in lower case, as 36 characters. Nothing else
/// is known of it.
#[verifier::external_body]
fn fresh_id() -> (text: String)
    ensures
        text@.len() == 36,
{
    uuid::Uuid::new_v4().to_string()
}

/// A request that waits for the user, with the sending end `S` of its reply
/// channel.
#[derive(Debug)]
pub struct PendingElicitation<S> {
    /// The request as the user interface received it.
    pub request: ElicitRequest,
    /// Where the reply goes.
    pub response_tx: S,
}

/// How the wait for the user ended.
#[derive(Debug, Clone, PartialEq, Eq)]
pub enum ElicitationEnd {
    /// The user interface could not be told of the request.
    EmitFailed,
    /// The user replied.
    Replied(ElicitResponse),
    /// The reply channel was dropped without a reply.
    ChannelDropped,
    /// The timeout passed without a reply.
    TimedOut,
}

/// What the server is told.
#[derive(Debug, Clone, PartialEq, Eq)]
pub struct ElicitationResult {
    /// What the user did; a request that nobody answered counts as cancelled.
    pub action: ElicitAction,
    /// What the user submitted, for an accepted request.
    pub content: Option<Value>,
}

/// What the server is told after the wait ended with `end`: the action of a
/// reply as it is, with its content where the user accepted, and a
/// cancellation without content in every other case.
pub open spec fn result_of(end: ElicitationEnd) -> ElicitationResult {
    match end {
        ElicitationEnd::Replied(response) => ElicitationResult {
            action: response.action,
            content: if response.action == ElicitAction::Accept {
                response.content
            } else {
                None
            },
        },
        _ => ElicitationResult { action: ElicitAction::Cancel, content: None },
    }
}

/// Says what the server is told after the wait for the user ended.
pub fn elicitation_result(end: ElicitationEnd) -> (r: ElicitationResult)
    ensures
        r == result_of(end),
{
    match end {
        ElicitationEnd::Replied(response) => {
            let ElicitResponse { action, content } = response;
            match action {
                ElicitAction::Accept => ElicitationResult { action, content },
                _ => ElicitationResult { action, content: None },
            }
        },
        _ => ElicitationResult { action: ElicitAction::Cancel, content: None },
    }
}

/// Taking the request `id` out of the pending requests `pending`: what is
/// left, and whether there was something to take.
pub open spec fn take_out<S>(pending: Map<Seq<char>, PendingElicitation<S>>, id: Seq<char>) -> (
    Map<Seq<char>, PendingElicitation<S>>,
    bool,
) {
    (pending.remove(id), pending.contains_key(id))
}

/// Elicitation exclusivity: of two attempts to end the same request, whatever
/// they are, a reply, a timeout or a lost channel, only the first finds the
/// request; and ending one request leaves every other as it was.
pub proof fn lemma_elicitation_exclusive<S>(
    pending: Map<Seq<char>, PendingElicitation<S>>,
    id: Seq<char>,
    other: Seq<char>,
)
    ensures
        !take_out(take_out(pending, id).0, id).1,
        take_out(take_out(pending, id).0, id).0 == take_out(pending, id).0,
        other != id ==> take_out(pending, id).0.contains_key(other) == pending.contains_key(other),
        other != id && pending.contains_key(other) ==> take_out(pending, id).0[other]
            == pending[other],
{
    assert(take_out(take_out(pending, id).0, id).0 =~= take_out(pending, id).0);
}

/// The pending requests of all servers.
pub struct ElicitationBridge<S> {
    pending: NameTable<PendingElicitation<S>>,
}

impl<S> ElicitationBridge<S> {
    /// The pending requests by identifier.
    pub closed spec fn view(&self) -> Map<Seq<char>, PendingElicitation<S>> {
        self.pending@
    }

    /// No identifier occurs twice.
    pub closed spec fn wf(&self) -> bool {
        self.pending.wf()
    }

    /// A bridge without pending requests.
    pub fn new() -> (r: Self)
        ensures
            r.wf(),
            r@ == Map::<Seq<char>, PendingElicitation<S>>::empty(),
    {
        ElicitationBridge { pending: NameTable::new() }
    }

    /// How many requests are pending.
    pub fn pending_count(&self) -> (n: usize)
        requires
            self.wf(),
        ensures
            n == self@.dom().len(),
    {
        proof {
            crate::table::lemma_domain_size(self.pending);
        }
        self.pending.len()
    }

    /// Whether the request `id` is pending.
    pub fn is_pending(&self, id: &str) -> (b: bool)
        ensures
            b == self@.contains_key(id@),
    {
        self.pending.contains_key(id)
    }

    /// Files a request of the server `server_name` under the identifier `id`
    /// and hands back what the user interface is told. A request that was
    /// pending under the same identifier is dropped.
    pub fn open_with_id(
        &mut self,
        id: String,
        server_name: &str,
        message: &str,
        requested_schema: Value,
        response_tx: S,
    ) -> (event: ElicitRequest)
        requires
            old(self).wf(),
        ensures
            final(self).wf(),
            event.id@ == id@,
            event.server@ == server_name@,
            event.message@ == message@,
            event.requested_schema == requested_schema,
            final(self)@.dom() == old(self)@.dom().insert(id@),
            final(self)@[id@].response_tx == response_tx,
            final(self)@[id@].request.id@ == id@,
            final(self)@[id@].request.server@ == server_name@,
            final(self)@[id@].request.message@ == message@,
            final(self)@[id@].request.requested_schema == requested_schema,
            forall|other: Seq<char>|
                other != id@ && old(self)@.contains_key(other) ==> final(self)@[other] == old(
                    self,
                )@[other],
    {
        let event = ElicitRequest {
            id: id.clone(),
            server: server_name.to_owned(),
            message: message.to_owned(),
            requested_schema: requested_schema.clone(),
        };
        let request = ElicitRequest {
            id: id.clone(),
            server: server_name.to_owned(),
            message: message.to_owned(),
            requested_schema,
        };
        self.pending.insert(id, PendingElicitation { request, response_tx });
        event
    }

    /// Files a request of the server `server_name` under a fresh random
    /// identifier and hands back what the user interface is told.
    pub fn open(
        &mut self,
        server_name: &str,
        message: &str,
        requested_schema: Value,
        response_tx: S,
    ) -> (event: ElicitRequest)
        requires
            old(self).wf(),
        ensures
            final(self).wf(),
            event.id@.len() == 36,
            event.server@ == server_name@,
            event.message@ == message@,
            event.requested_schema == requested_schema,
            final(self)@.dom() == old(self)@.dom().insert(event.id@),
            final(self)@[event.id@].response_tx == response_tx,
            final(self)@[event.id@].request.id@ == event.id@,
            final(self)@[event.id@].request.server@ == server_name@,
            final(self)@[event.id@].request.message@ == message@,
            final(self)@[event.id@].request.requested_schema == requested_schema,
            forall|other: Seq<char>|
                other != event.id@ && old(self)@.contains_key(other) ==> final(self)@[other]
                    == old(self)@[other],
    {
        let id = fresh_id();
        self.open_with_id(id, server_name, message, requested_schema, response_tx)
    }

    /// The reply of the user to the request `id`: takes the request out and
    /// hands back the sending end of its channel, for the reply to be sent.
    /// It hands back nothing where the request is no longer pending.
    pub fn resolve(&mut self, id: &str) -> (response_tx: Option<S>)
        requires
            old(self).wf(),
        ensures
            final(self).wf(),
            (final(self)@, response_tx is Some) == take_out(old(self)@, id@),
            response_tx matches Some(tx) ==> tx == old(self)@[id@].response_tx,
    {
        match self.pending.remove(id) {
            Some(pending) => Some(pending.response_tx),
            None => None,
        }
    }

    /// The end of the wait for the request `id` without a reply: takes the
    /// request out, and says whether it was still pending.
    pub fn expire(&mut self, id: &str) -> (was_pending: bool)
        requires
            old(self).wf(),
        ensures
            final(self).wf(),
            (final(self)@, was_pending) == take_out(old(self)@, id@),
    {
        self.pending.remove(id).is_some()
    }
}

/// What an elicitation waits for.
#[derive(Debug, Clone, Copy, PartialEq, Eq, Structural)]
pub enum ElicitationPhase {
    /// The emission of the event to the user interface.
    AwaitEmit,
    /// The reply of the user.
    AwaitReply,
    /// Nothing: the elicitation has ended.
    Finished,
}

/// What the runner reports.
#[derive(Debug, Clone, PartialEq, Eq)]
pub enum ElicitationEvent {
    /// The user interface was told of the request.
    Emitted,
    /// The wait ended.
    Ended { end: ElicitationEnd },
}

/// What the elicitation asks its runner to do.
#[derive(Debug, Clone)]
pub enum ElicitationAction {
    /// Emit the event to the user interface and report whether it went out.
    Emit { event: SupervisorEvent },
    /// Wait for the reply on the channel, for the given seconds at most.
    AwaitReply { timeout_secs: u64 },
    /// The elicitation has ended; the server is told the result.
    Finish { result: ElicitationResult },
}

/// One request of a server for input from the user, from its arrival to the
/// answer that the server gets.
#[derive(Debug, Clone)]
pub struct Elicitation {
    /// The identifier of the request.
    pub id: String,
    /// What the elicitation waits for.
    pub phase: ElicitationPhase,
}

/// Whether `end` is an end that `phase` waits for: a failed emission while the
/// event is being emitted, and a reply, a lost channel or a timeout while the
/// reply is awaited.
pub open spec fn ends_phase(phase: ElicitationPhase, end: ElicitationEnd) -> bool {
    match phase {
        ElicitationPhase::AwaitEmit => end is EmitFailed,
        ElicitationPhase::AwaitReply => !(end is EmitFailed),
        ElicitationPhase::Finished => false,
    }
}

/// The phase, the pending requests and the result that follow `event`; no
/// result where the elicitation goes on, and no change where the event is
/// not what the elicitation waits for. Whatever ends the wait, the request
/// is pending no longer.
pub open spec fn elicitation_step<S>(
    elicitation: Elicitation,
    pending: Map<Seq<char>, PendingElicitation<S>>,
    event: ElicitationEvent,
) -> (ElicitationPhase, Map<Seq<char>, PendingElicitation<S>>, Option<ElicitationResult>) {
    match event {
        ElicitationEvent::Emitted => if elicitation.phase == ElicitationPhase::AwaitEmit {
            (ElicitationPhase::AwaitReply, pending, None)
        } else {
            (elicitation.phase, pending, None)
        },
        ElicitationEvent::Ended { end } => if ends_phase(elicitation.phase, end) {
            (ElicitationPhase::Finished, pending.remove(elicitation.id@), Some(result_of(end)))
        } else {
            (elicitation.phase, pending, None)
        },
    }
}

impl Elicitation {
    /// Takes in a request of the server `server_name`: files it under a fresh
    /// identifier and asks for the event to be emitted.
    pub fn start<S>(
        bridge: &mut ElicitationBridge<S>,
        server_name: &str,
        message: &str,
        requested_schema: Value,
        response_tx: S,
    ) -> (r: (Elicitation, ElicitationAction))
        requires
            old(bridge).wf(),
        ensures
            final(bridge).wf(),
            r.0.phase == ElicitationPhase::AwaitEmit,
            r.0.id@.len() == 36,
            r.1 matches ElicitationAction::Emit { event: SupervisorEvent::Elicitation { request } }
                && request.id@ == r.0.id@ && request.server@ == server_name@ && request.message@
                == message@ && request.requested_schema == requested_schema,
            final(bridge)@.dom() == old(bridge)@.dom().insert(r.0.id@),
            final(bridge)@[r.0.id@].response_tx == response_tx,
            forall|other: Seq<char>|
                other != r.0.id@ && old(bridge)@.contains_key(other) ==> final(bridge)@[other]
                    == old(bridge)@[other],
    {
        let request = bridge.open(server_name, message, requested_schema, response_tx);
        let elicitation = Elicitation { id: request.id.clone(), phase: ElicitationPhase::AwaitEmit };
        (elicitation, ElicitationAction::Emit { event: SupervisorEvent::Elicitation { request } })
    }

    /// Takes in what the runner reports and says what to do next. Once the
    /// event is emitted, the reply is awaited for five minutes; whatever ends
    /// the wait takes the request out of the pending ones.
    pub fn step<S>(&mut self, bridge: &mut ElicitationBridge<S>, event: ElicitationEvent) -> (action:
        Option<ElicitationAction>)
        requires
            old(bridge).wf(),
        ensures
            final(bridge).wf(),
            final(self).id == old(self).id,
            (final(self).phase, final(bridge)@) == (
                elicitation_step(*old(self), old(bridge)@, event).0,
                elicitation_step(*old(self), old(bridge)@, event).1,
            ),
            match action {
                Some(ElicitationAction::Finish { result }) => elicitation_step(
                    *old(self),
                    old(bridge)@,
                    event,
                ).2 == Some(result),
                Some(ElicitationAction::AwaitReply { timeout_secs }) => timeout_secs
                    == ELICITATION_TIMEOUT_SECS && old(self).phase == ElicitationPhase::AwaitEmit
                    && event is Emitted,
                Some(ElicitationAction::Emit { event: emitted }) => false,
                None => elicitation_step(*old(self), old(bridge)@, event).2 is None
                    && final(self).phase == old(self).phase,
            },
    {
        match event {
            ElicitationEvent::Emitted => match self.phase {
                ElicitationPhase::AwaitEmit => {
                    self.phase = ElicitationPhase::AwaitReply;
                    Some(ElicitationAction::AwaitReply { timeout_secs: ELICITATION_TIMEOUT_SECS })
                },
                _ => None,
            },
            ElicitationEvent::Ended { end } => {
                let fits = match self.phase {
                    ElicitationPhase::AwaitEmit => match end {
                        ElicitationEnd::EmitFailed => true,
                        _ => false,
                    },
                    ElicitationPhase::AwaitReply => match end {
                        ElicitationEnd::EmitFailed => false,
                        _ => true,
                    },
                    ElicitationPhase::Finished => false,
                };
                if fits {
                    self.phase = ElicitationPhase::Finished;
                    bridge.expire(self.id.as_str());
                    Some(ElicitationAction::Finish { result: elicitation_result(end) })
                } else {
                    None
                }
            },
        }
    }
}

/// Elicitation timeout and the like: an elicitation whose wait ends without
/// a reply tells the server that the user cancelled, without content, and
/// leaves nothing pending under its identifier; and whatever ends it, ending
/// it once more changes nothing.
pub proof fn lemma_unanswered_is_cancelled<S>(
    elicitation: Elicitation,
    pending: Map<Seq<char>, PendingElicitation<S>>,
    end: ElicitationEnd,
)
    requires
        ends_phase(elicitation.phase, end),
    ensures
        !(end is Replied) ==> elicitation_step(
            elicitation,
            pending,
            ElicitationEvent::Ended { end },
        ).2 == Some(ElicitationResult { action: ElicitAction::Cancel, content: None }),
        !elicitation_step(elicitation, pending, ElicitationEvent::Ended { end }).1.contains_key(
            elicitation.id@,
        ),
        elicitation_step(elicitation, pending, ElicitationEvent::Ended { end }).0
            == ElicitationPhase::Finished,
        forall|again: ElicitationEvent|
            #[trigger] elicitation_step(
                Elicitation { phase: ElicitationPhase::Finished, ..elicitation },
                elicitation_step(elicitation, pending, ElicitationEvent::Ended { end }).1,
                again,
            ) == (
                ElicitationPhase::Finished,
                elicitation_step(elicitation, pending, ElicitationEvent::Ended { end }).1,
                None::<ElicitationResult>,
            ),
{
}

} // verus!

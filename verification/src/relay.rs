use vstd::prelude::*;

use crate::errors::SessionError;
use crate::msg::{ChatMessage, MessageModel};
use crate::session::{
    close_model, deliver_to, recv_model, relay_step_model, started_session, DeliverOutcome,
    Session, SessionModel, SessionState,
};

verus! {

/// Bus publish on the model: `payload` joins the subscription queue of every
/// subscribed session whose identity names `topic`; the rest are untouched. A
/// topic nobody subscribes to swallows the payload without error.
pub open spec fn publish_model(
    ss: Seq<SessionModel>,
    topic: Seq<char>,
    payload: Seq<char>,
) -> Seq<SessionModel> {
    ss.map_values(|s: SessionModel| deliver_to(s, topic, payload))
}

/// The relay: every live session, each exclusively owning its bus
/// subscription and its outbound buffer.
pub struct ChatRelay {
    sessions: Vec<Session>,
}

impl View for ChatRelay {
    type V = Seq<SessionModel>;

    closed spec fn view(&self) -> Seq<SessionModel> {
        self.sessions@.map_values(|s: Session| s@)
    }
}

impl ChatRelay {
    /// Every session satisfies the session invariant.
    pub open spec fn wf(self) -> bool {
        forall|i: int| 0 <= i < self@.len() ==> (#[trigger] self@[i]).wf()
    }

    /// A relay with no sessions.
    pub fn new() -> (r: ChatRelay)
        ensures
            r@ == Seq::<SessionModel>::empty(),
            r.wf(),
    {
        let r = ChatRelay { sessions: Vec::new() };
        proof {
            assert(r@ =~= Seq::<SessionModel>::empty());
        }
        r
    }

    /// How many sessions the relay has opened and not forgotten.
    pub fn session_count(&self) -> (n: usize)
        ensures
            n == self@.len(),
    {
        self.sessions.len()
    }

    /// Handshake for a new connection: with a nonempty identity in the
    /// session-start metadata a new session is appended, active, subscribed
    /// to its identity topic, its welcome message already buffered; the new
    /// session's index is returned. Otherwise the handshake is invalid and no
    /// resources are allocated.
    pub fn start_session(&mut self, identity_meta: Option<String>) -> (r: Result<
        usize,
        SessionError,
    >)
        requires
            old(self).wf(),
        ensures
            final(self).wf(),
            match identity_meta {
                Option::Some(id) => if id@.len() > 0 {
                    &&& r is Ok
                    &&& r->Ok_0 == old(self)@.len()
                    &&& final(self)@ == old(self)@.push(started_session(id@))
                } else {
                    &&& r == Err::<usize, SessionError>(SessionError::InvalidHandshake)
                    &&& final(self)@ == old(self)@
                },
                Option::None => {
                    &&& r == Err::<usize, SessionError>(SessionError::InvalidHandshake)
                    &&& final(self)@ == old(self)@
                },
            },
    {
        let idx = self.sessions.len();
        match Session::start(identity_meta) {
            Ok(s) => {
                let ghost before = self@;
                let ghost sv = s@;
                self.sessions.push(s);
                proof {
                    assert(self@ =~= before.push(sv));
                }
                Ok(idx)
            },
            Err(e) => Err(e),
        }
    }

    /// Publishes `payload` to `topic`: the bus hands it to every subscribed
    /// session of that identity. With no subscriber the message is dropped
    /// without error and no session changes.
    pub fn publish(&mut self, topic: &String, payload: &String)
        requires
            old(self).wf(),
        ensures
            final(self).wf(),
            final(self)@ == publish_model(old(self)@, topic@, payload@),
    {
        let ghost ss0 = self@;
        let n = self.sessions.len();
        let mut i: usize = 0;
        while i < n
            invariant
                self.wf(),
                n == self@.len(),
                ss0.len() == n,
                i <= n,
                forall|j: int| 0 <= j < i ==> self@[j] == deliver_to(ss0[j], topic@, payload@),
                forall|j: int| i <= j < n ==> self@[j] == ss0[j],
            decreases n - i,
        {
            let ghost before = self@;
            let s = &mut self.sessions[i];
            proof {
                assert(before[i as int] == s@);
            }
            s.bus_deliver(topic, payload);
            proof {
                assert(self@ =~= before.update(
                    i as int,
                    deliver_to(before[i as int], topic@, payload@),
                ));
            }
            i += 1;
        }
        proof {
            assert(self@ =~= publish_model(ss0, topic@, payload@));
        }
    }

    /// One outbound-relay step for a message taken from a client's request
    /// stream: its text is published to the topic its `to` field names.
    pub fn outbound_step(&mut self, m: &ChatMessage)
        requires
            old(self).wf(),
        ensures
            final(self).wf(),
            final(self)@ == publish_model(old(self)@, m@.to, m@.message),
    {
        self.publish(&m.to, &m.message)
    }

    /// One inbound-relay step for session `i`: its oldest queued payload, if
    /// any, moves into its outbound buffer; a full buffer suspends the move.
    pub fn relay_step(&mut self, i: usize) -> (r: DeliverOutcome)
        requires
            old(self).wf(),
            i < old(self)@.len(),
            old(self)@[i as int].state is Active,
        ensures
            final(self).wf(),
            final(self)@ == old(self)@.update(i as int, relay_step_model(old(self)@[i as int]).0),
            r == relay_step_model(old(self)@[i as int]).1,
    {
        let ghost before = self@;
        let s = &mut self.sessions[i];
        proof {
            assert(before[i as int] == s@);
        }
        let r = s.relay_step();
        proof {
            assert(self@ =~= before.update(i as int, relay_step_model(before[i as int]).0));
        }
        r
    }

    /// Hands session `i`'s oldest buffered message to its response stream.
    pub fn client_recv(&mut self, i: usize) -> (r: Option<ChatMessage>)
        requires
            old(self).wf(),
            i < old(self)@.len(),
        ensures
            final(self).wf(),
            final(self)@ == old(self)@.update(i as int, recv_model(old(self)@[i as int]).0),
            (r is Some) == (recv_model(old(self)@[i as int]).1 is Some),
            r is Some ==> r->0@ == recv_model(old(self)@[i as int]).1->0,
    {
        let ghost before = self@;
        let s = &mut self.sessions[i];
        proof {
            assert(before[i as int] == s@);
        }
        let r = s.next_outbound();
        proof {
            assert(self@ =~= before.update(i as int, recv_model(before[i as int]).0));
        }
        r
    }

    /// Tears session `i` down after one of its relays terminated: its state
    /// machine runs to Closed and its subscription is released, so later
    /// publishes to its topic no longer reach it.
    pub fn close_session(&mut self, i: usize)
        requires
            old(self).wf(),
            i < old(self)@.len(),
            old(self)@[i as int].state is Active || old(self)@[i as int].state is Draining,
        ensures
            final(self).wf(),
            final(self)@ == old(self)@.update(i as int, close_model(old(self)@[i as int])),
    {
        let ghost before = self@;
        let s = &mut self.sessions[i];
        proof {
            assert(before[i as int] == s@);
        }
        s.close();
        proof {
            assert(self@ =~= before.update(i as int, close_model(before[i as int])));
        }
    }

    /// The identity of session `i`.
    pub fn identity_of(&self, i: usize) -> (r: &String)
        requires
            i < self@.len(),
        ensures
            r@ == self@[i as int].identity,
    {
        let s = &self.sessions[i];
        proof {
            assert(self@[i as int] == s@);
        }
        s.identity()
    }

    /// Where session `i` stands in its lifecycle.
    pub fn state_of(&self, i: usize) -> (r: SessionState)
        requires
            i < self@.len(),
        ensures
            r == self@[i as int].state,
    {
        let s = &self.sessions[i];
        proof {
            assert(self@[i as int] == s@);
        }
        s.state()
    }

    /// Whether session `i` still holds its bus subscription.
    pub fn subscribed_of(&self, i: usize) -> (r: bool)
        requires
            i < self@.len(),
        ensures
            r == self@[i as int].subscribed,
    {
        let s = &self.sessions[i];
        proof {
            assert(self@[i as int] == s@);
        }
        s.is_subscribed()
    }

    /// How many payloads wait on session `i`'s subscription.
    pub fn pending_len_of(&self, i: usize) -> (n: usize)
        requires
            i < self@.len(),
        ensures
            n == self@[i as int].pending.len(),
    {
        let s = &self.sessions[i];
        proof {
            assert(self@[i as int] == s@);
        }
        s.pending_len()
    }

    /// How many messages wait in session `i`'s outbound buffer.
    pub fn buffered_len_of(&self, i: usize) -> (n: usize)
        requires
            i < self@.len(),
        ensures
            n == self@[i as int].buffer.len(),
    {
        let s = &self.sessions[i];
        proof {
            assert(self@[i as int] == s@);
        }
        s.buffered_len()
    }
}

/// What the outbound relay does with one item of the client's request stream.
pub enum OutboundAction {
    /// Publish `payload` to `topic` on the bus, fire-and-forget.
    Publish { topic: String, payload: String },
    /// The stream ended; stop the relay and start teardown for this reason.
    Stop { reason: SessionError },
}

/// Decision of the outbound relay for one request-stream item: a message is
/// published to the topic its `to` field names; the end of the stream stops
/// the relay and reports the client disconnected.
pub fn outbound_decision(item: Option<ChatMessage>) -> (r: OutboundAction)
    ensures
        match item {
            Option::Some(m) => match r {
                OutboundAction::Publish { topic, payload } => topic@ == m@.to && payload@
                    == m@.message,
                OutboundAction::Stop { .. } => false,
            },
            Option::None => r == (OutboundAction::Stop {
                reason: SessionError::ClientDisconnected,
            }),
        },
{
    match item {
        Option::Some(m) => OutboundAction::Publish { topic: m.to, payload: m.message },
        Option::None => OutboundAction::Stop { reason: SessionError::ClientDisconnected },
    }
}

/// What the inbound relay does with one item of the bus subscription stream.
pub enum InboundAction {
    /// Forward this message into the session's outbound buffer, suspending
    /// while the buffer is full rather than dropping it.
    Forward { message: ChatMessage },
    /// The subscription ended; stop the relay and start teardown.
    Stop { reason: SessionError },
}

/// Decision of the inbound relay for one subscription item: a payload is
/// forwarded to the client stamped with the receiving session's own identity;
/// a closed subscription means the bus connection was lost and stops the
/// relay.
pub fn inbound_decision(identity: &String, item: Option<String>) -> (r: InboundAction)
    ensures
        match item {
            Option::Some(p) => match r {
                InboundAction::Forward { message } => message@ == (MessageModel {
                    to: identity@,
                    message: p@,
                }),
                InboundAction::Stop { .. } => false,
            },
            Option::None => r == (InboundAction::Stop {
                reason: SessionError::BusConnectionLost,
            }),
        },
{
    match item {
        Option::Some(p) => InboundAction::Forward {
            message: ChatMessage { to: identity.clone(), message: p },
        },
        Option::None => InboundAction::Stop { reason: SessionError::BusConnectionLost },
    }
}

} // verus!

use vstd::prelude::*;

use crate::buffer::{OutboundBuffer, OUTBOUND_CAPACITY};
use crate::errors::SessionError;
use crate::msg::{welcome_message, ChatMessage, MessageModel};

verus! {

/// Lifecycle of one session.
#[derive(Clone, Copy, Debug, PartialEq, Eq, Structural)]
pub enum SessionState {
    Handshaking,
    Active,
    Draining,
    Closed,
}

/// What drives the lifecycle forward.
#[derive(Clone, Copy, Debug, PartialEq, Eq, Structural)]
pub enum SessionEvent {
    HandshakeOk,
    HandshakeFailed,
    RelayTerminated,
    TeardownComplete,
}

/// Outcome of one inbound-relay step.
#[derive(Clone, Copy, Debug, PartialEq, Eq, Structural)]
pub enum DeliverOutcome {
    /// A bus payload was moved into the outbound buffer.
    Forwarded,
    /// The buffer is full; the payload stays queued and the relay suspends.
    Suspended,
    /// Nothing is queued on the subscription.
    Idle,
}

/// The session state machine: a successful handshake activates the session, a
/// failed one closes it at once; the first relay termination starts draining;
/// finished teardown closes it. Closed is terminal and irreversible.
pub open spec fn next_state(s: SessionState, e: SessionEvent) -> SessionState {
    match (s, e) {
        (SessionState::Handshaking, SessionEvent::HandshakeOk) => SessionState::Active,
        (SessionState::Handshaking, SessionEvent::HandshakeFailed) => SessionState::Closed,
        (SessionState::Active, SessionEvent::RelayTerminated) => SessionState::Draining,
        (SessionState::Draining, SessionEvent::TeardownComplete) => SessionState::Closed,
        (SessionState::Closed, _) => SessionState::Closed,
        (s0, _) => s0,
    }
}

/// Executable step of the session state machine.
pub fn session_step(s: SessionState, e: SessionEvent) -> (r: SessionState)
    ensures
        r == next_state(s, e),
{
    match (s, e) {
        (SessionState::Handshaking, SessionEvent::HandshakeOk) => SessionState::Active,
        (SessionState::Handshaking, SessionEvent::HandshakeFailed) => SessionState::Closed,
        (SessionState::Active, SessionEvent::RelayTerminated) => SessionState::Draining,
        (SessionState::Draining, SessionEvent::TeardownComplete) => SessionState::Closed,
        (SessionState::Closed, _) => SessionState::Closed,
        (s0, _) => s0,
    }
}

/// Mathematical image of a session.
#[verifier::ext_equal]
pub ghost struct SessionModel {
    /// The client's identity; also the bus topic the session subscribes to.
    pub identity: Seq<char>,
    pub state: SessionState,
    /// Whether the session still holds its bus subscription.
    pub subscribed: bool,
    /// Payloads published to the session's topic, not yet relayed inward.
    pub pending: Seq<Seq<char>>,
    /// Messages forwarded to the client, not yet consumed by it.
    pub buffer: Seq<MessageModel>,
}

impl SessionModel {
    /// Session invariant: the buffer stays within capacity, the identity is
    /// nonempty, and a closed session holds neither its subscription nor a
    /// subscription queue.
    pub open spec fn wf(self) -> bool {
        &&& self.buffer.len() <= OUTBOUND_CAPACITY
        &&& self.identity.len() > 0
        &&& (self.state is Closed ==> !self.subscribed && self.pending.len() == 0)
    }
}

/// A session freshly started for `identity`: active, subscribed to its own
/// topic, no bus backlog, and exactly the welcome message buffered.
pub open spec fn started_session(identity: Seq<char>) -> SessionModel {
    SessionModel {
        identity: identity,
        state: SessionState::Active,
        subscribed: true,
        pending: Seq::empty(),
        buffer: seq![welcome_message(identity)],
    }
}

/// Bus delivery of `payload` on `topic`: a subscribed session whose identity
/// names the topic queues the payload at the tail of its subscription queue;
/// any other session is untouched.
pub open spec fn deliver_to(s: SessionModel, topic: Seq<char>, payload: Seq<char>) -> SessionModel {
    if s.subscribed && s.identity == topic {
        SessionModel { pending: s.pending.push(payload), ..s }
    } else {
        s
    }
}

/// One inbound-relay step on the model: the oldest queued payload moves into
/// the buffer, stamped with the session's own identity; a full buffer suspends
/// the move; an empty queue leaves the relay idle.
pub open spec fn relay_step_model(s: SessionModel) -> (SessionModel, DeliverOutcome) {
    if s.pending.len() == 0 {
        (s, DeliverOutcome::Idle)
    } else if s.buffer.len() >= OUTBOUND_CAPACITY {
        (s, DeliverOutcome::Suspended)
    } else {
        (
            SessionModel {
                pending: s.pending.drop_first(),
                buffer: s.buffer.push(MessageModel { to: s.identity, message: s.pending[0] }),
                ..s
            },
            DeliverOutcome::Forwarded,
        )
    }
}

/// The client consuming its response stream: the oldest buffered message, if
/// any, leaves the buffer.
pub open spec fn recv_model(s: SessionModel) -> (SessionModel, Option<MessageModel>) {
    if s.buffer.len() == 0 {
        (s, None)
    } else {
        (SessionModel { buffer: s.buffer.drop_first(), ..s }, Some(s.buffer[0]))
    }
}

/// Teardown: the state becomes Closed, the subscription is released and its
/// queue discarded; the buffer is kept so the client may drain what was
/// already forwarded.
pub open spec fn close_model(s: SessionModel) -> SessionModel {
    SessionModel {
        state: SessionState::Closed,
        subscribed: false,
        pending: Seq::empty(),
        ..s
    }
}

/// One active chat connection: its identity (which is also its bus topic), the
/// bus-side subscription queue, and the bounded outbound buffer its client
/// drains.
pub struct Session {
    identity: String,
    state: SessionState,
    subscribed: bool,
    pending: Vec<String>,
    buffer: OutboundBuffer,
}

impl View for Session {
    type V = SessionModel;

    closed spec fn view(&self) -> SessionModel {
        SessionModel {
            identity: self.identity@,
            state: self.state,
            subscribed: self.subscribed,
            pending: self.pending@.map_values(|p: String| p@),
            buffer: self.buffer@,
        }
    }
}

impl Session {
    /// Handshake: opens a session for a client whose session-start metadata
    /// carried `identity_meta`. A missing or empty identity is an invalid
    /// handshake and nothing is allocated; otherwise the session comes up
    /// active, subscribed to its identity topic, with the welcome message
    /// already buffered as the first response-stream item.
    pub fn start(identity_meta: Option<String>) -> (r: Result<Session, SessionError>)
        ensures
            match identity_meta {
                Option::Some(id) => if id@.len() > 0 {
                    r is Ok && r->Ok_0@ == started_session(id@)
                } else {
                    r == Err::<Session, SessionError>(SessionError::InvalidHandshake)
                },
                Option::None => r == Err::<Session, SessionError>(SessionError::InvalidHandshake),
            },
            r is Ok ==> r->Ok_0@.wf(),
    {
        match identity_meta {
            Option::Some(id) => {
                if id.as_str().is_empty() {
                    Err(SessionError::InvalidHandshake)
                } else {
                    let welcome = crate::msg::make_welcome(&id);
                    let mut buffer = OutboundBuffer::new();
                    let _accepted = buffer.enqueue(welcome);
                    let s = Session {
                        identity: id,
                        state: SessionState::Active,
                        subscribed: true,
                        pending: Vec::new(),
                        buffer,
                    };
                    proof {
                        assert(s@ =~= started_session(s.identity@));
                    }
                    Ok(s)
                }
            },
            Option::None => Err(SessionError::InvalidHandshake),
        }
    }

    /// The client's identity, which names its bus topic.
    pub fn identity(&self) -> (r: &String)
        ensures
            r@ == self@.identity,
    {
        &self.identity
    }

    /// Where the session stands in its lifecycle.
    pub fn state(&self) -> (r: SessionState)
        ensures
            r == self@.state,
    {
        self.state
    }

    /// Whether the session still holds its bus subscription.
    pub fn is_subscribed(&self) -> (r: bool)
        ensures
            r == self@.subscribed,
    {
        self.subscribed
    }

    /// How many payloads wait on the subscription, not yet relayed inward.
    pub fn pending_len(&self) -> (n: usize)
        ensures
            n == self@.pending.len(),
    {
        self.pending.len()
    }

    /// How many messages wait in the outbound buffer.
    pub fn buffered_len(&self) -> (n: usize)
        ensures
            n == self@.buffer.len(),
    {
        self.buffer.len()
    }

    /// Bus-side delivery: if this session is subscribed and `topic` is its
    /// identity, `payload` joins the tail of its subscription queue; any other
    /// session is untouched.
    pub fn bus_deliver(&mut self, topic: &String, payload: &String)
        requires
            old(self)@.wf(),
        ensures
            final(self)@.wf(),
            final(self)@ == deliver_to(old(self)@, topic@, payload@),
    {
        if self.subscribed && self.identity == *topic {
            self.pending.push(payload.clone());
            proof {
                assert(self@ =~= deliver_to(old(self)@, topic@, payload@));
            }
        }
    }

    /// One inbound-relay step: move the oldest queued payload, if any, into
    /// the outbound buffer, stamped with this session's own identity. A full
    /// buffer suspends the move without losing the payload.
    pub fn relay_step(&mut self) -> (r: DeliverOutcome)
        requires
            old(self)@.wf(),
            old(self)@.state is Active,
        ensures
            final(self)@.wf(),
            final(self)@ == relay_step_model(old(self)@).0,
            r == relay_step_model(old(self)@).1,
    {
        if self.pending.len() == 0 {
            DeliverOutcome::Idle
        } else if self.buffer.is_full() {
            DeliverOutcome::Suspended
        } else {
            let payload = self.pending.remove(0);
            let m = ChatMessage { to: self.identity.clone(), message: payload };
            let _accepted = self.buffer.enqueue(m);
            proof {
                assert(self@ =~= relay_step_model(old(self)@).0);
            }
            DeliverOutcome::Forwarded
        }
    }

    /// Hands the oldest buffered message to the response stream, if any.
    pub fn next_outbound(&mut self) -> (r: Option<ChatMessage>)
        requires
            old(self)@.wf(),
        ensures
            final(self)@.wf(),
            final(self)@ == recv_model(old(self)@).0,
            (r is Some) == (recv_model(old(self)@).1 is Some),
            r is Some ==> r->0@ == recv_model(old(self)@).1->0,
    {
        self.buffer.dequeue()
    }

    /// Teardown after a relay terminated: the state machine runs RelayTerminated
    /// then TeardownComplete down to Closed, the subscription is released and
    /// its queue discarded. The buffer is kept for the client to drain.
    pub fn close(&mut self)
        requires
            old(self)@.wf(),
            old(self)@.state is Active || old(self)@.state is Draining,
        ensures
            final(self)@.wf(),
            final(self)@ == close_model(old(self)@),
            final(self)@.state == next_state(
                next_state(old(self)@.state, SessionEvent::RelayTerminated),
                SessionEvent::TeardownComplete,
            ),
    {
        self.state = session_step(self.state, SessionEvent::RelayTerminated);
        self.state = session_step(self.state, SessionEvent::TeardownComplete);
        self.subscribed = false;
        self.pending.clear();
        proof {
            assert(self@ =~= close_model(old(self)@));
        }
    }
}

} // verus!

use vstd::prelude::*;

use crate::buffer::OUTBOUND_CAPACITY;
use crate::msg::{welcome_message, MessageModel};
use crate::relay::publish_model;
use crate::session::{
    close_model, deliver_to, next_state, recv_model, relay_step_model, started_session,
    DeliverOutcome, SessionEvent, SessionModel, SessionState,
};

verus! {

/// Everything published to a session that its client has not yet consumed, in
/// delivery order: first what the relay already forwarded into the buffer,
/// then what still waits on the subscription.
pub open spec fn undelivered(s: SessionModel) -> Seq<Seq<char>> {
    s.buffer.map_values(|m: MessageModel| m.message) + s.pending
}

/// A fresh session yields exactly one welcome message, addressed to its own
/// identity, as the first item of its response stream; consuming it leaves
/// the buffer empty.
pub proof fn lemma_welcome_is_first(identity: Seq<char>)
    ensures
        started_session(identity).buffer == seq![welcome_message(identity)],
        recv_model(started_session(identity)).1 == Some(welcome_message(identity)),
        recv_model(started_session(identity)).0.buffer.len() == 0,
{
    let s = started_session(identity);
    assert(s.buffer[0] == welcome_message(identity));
}

/// Publish order is preserved at the subscriber: delivery of a payload to a
/// subscribed session appends it at the tail of what that session's client
/// has not yet consumed.
pub proof fn lemma_publish_appends(s: SessionModel, topic: Seq<char>, payload: Seq<char>)
    requires
        s.subscribed,
        s.identity == topic,
    ensures
        undelivered(deliver_to(s, topic, payload)) == undelivered(s).push(payload),
{
    assert(undelivered(deliver_to(s, topic, payload)) =~= undelivered(s).push(payload));
}

/// Two payloads published to the same subscribed session line up behind what
/// was already undelivered, in their publish order.
pub proof fn lemma_publish_order_kept(
    s: SessionModel,
    topic: Seq<char>,
    p1: Seq<char>,
    p2: Seq<char>,
)
    requires
        s.subscribed,
        s.identity == topic,
    ensures
        undelivered(deliver_to(deliver_to(s, topic, p1), topic, p2)) == undelivered(s).push(
            p1,
        ).push(p2),
{
    lemma_publish_appends(s, topic, p1);
    lemma_publish_appends(deliver_to(s, topic, p1), topic, p2);
}

/// The inbound relay neither loses nor reorders: one step leaves the
/// undelivered sequence unchanged, whatever its outcome.
pub proof fn lemma_relay_step_preserves_undelivered(s: SessionModel)
    ensures
        undelivered(relay_step_model(s).0) == undelivered(s),
{
    assert(undelivered(relay_step_model(s).0) =~= undelivered(s));
}

/// Whatever the relay forwards is stamped with the receiving session's own
/// identity, and carries the oldest queued payload unchanged.
pub proof fn lemma_forwarded_stamped(s: SessionModel)
    requires
        relay_step_model(s).1 == DeliverOutcome::Forwarded,
    ensures
        relay_step_model(s).0.buffer.last() == (MessageModel {
            to: s.identity,
            message: s.pending[0],
        }),
{
}

/// The client consumes in order: a receive on a nonempty buffer yields the
/// head of the undelivered sequence and removes exactly it.
pub proof fn lemma_recv_in_order(s: SessionModel)
    requires
        s.buffer.len() > 0,
    ensures
        recv_model(s).1 == Some(s.buffer[0]),
        recv_model(s).1->0.message == undelivered(s)[0],
        undelivered(recv_model(s).0) == undelivered(s).drop_first(),
{
    assert(undelivered(recv_model(s).0) =~= undelivered(s).drop_first());
}

/// Seen from the whole relay: a publish appends the payload to the
/// undelivered sequence of every subscribed session of that topic.
pub proof fn lemma_publish_model_appends(
    ss: Seq<SessionModel>,
    topic: Seq<char>,
    payload: Seq<char>,
    i: int,
)
    requires
        0 <= i < ss.len(),
        ss[i].subscribed,
        ss[i].identity == topic,
    ensures
        undelivered(publish_model(ss, topic, payload)[i]) == undelivered(ss[i]).push(payload),
{
    lemma_publish_appends(ss[i], topic, payload);
}

/// A publish whose topic no session subscribes to changes no session at all:
/// the message is dropped without error, and in particular the publisher's
/// own session is unaffected.
pub proof fn lemma_publish_no_subscriber(ss: Seq<SessionModel>, topic: Seq<char>, payload: Seq<char>)
    requires
        forall|i: int|
            0 <= i < ss.len() ==> !((#[trigger] ss[i]).subscribed && ss[i].identity == topic),
    ensures
        publish_model(ss, topic, payload) == ss,
{
    assert(publish_model(ss, topic, payload) =~= ss);
}

/// A publish touches at most the sessions subscribed to its topic; every
/// other session keeps its exact state.
pub proof fn lemma_publish_touches_only_subscribers(
    ss: Seq<SessionModel>,
    topic: Seq<char>,
    payload: Seq<char>,
    i: int,
)
    requires
        0 <= i < ss.len(),
        !(ss[i].subscribed && ss[i].identity == topic),
    ensures
        publish_model(ss, topic, payload)[i] == ss[i],
{
}

/// Backpressure without loss: with a full buffer and a queued payload the
/// relay step suspends and changes nothing; once the client consumes one
/// message the same step forwards, and only the consumed message has left
/// the undelivered sequence.
pub proof fn lemma_backpressure_no_loss(s: SessionModel)
    requires
        s.pending.len() > 0,
        s.buffer.len() == OUTBOUND_CAPACITY,
    ensures
        relay_step_model(s).1 == DeliverOutcome::Suspended,
        relay_step_model(s).0 == s,
        relay_step_model(recv_model(s).0).1 == DeliverOutcome::Forwarded,
        undelivered(relay_step_model(recv_model(s).0).0) == undelivered(s).drop_first(),
{
    lemma_recv_in_order(s);
    lemma_relay_step_preserves_undelivered(recv_model(s).0);
}

/// Every message a session has buffered for its client is addressed to that
/// session's own identity, never to the sender's.
pub open spec fn self_addressed(s: SessionModel) -> bool {
    forall|i: int| 0 <= i < s.buffer.len() ==> (#[trigger] s.buffer[i]).to == s.identity
}

/// A fresh session is self-addressed, and every relay operation keeps a
/// self-addressed session so: whatever reaches the client carries the
/// receiving session's own identity in its `to` field.
pub proof fn lemma_self_addressed_invariant(
    s: SessionModel,
    identity: Seq<char>,
    topic: Seq<char>,
    payload: Seq<char>,
)
    requires
        self_addressed(s),
    ensures
        self_addressed(started_session(identity)),
        self_addressed(deliver_to(s, topic, payload)),
        self_addressed(relay_step_model(s).0),
        self_addressed(recv_model(s).0),
        self_addressed(close_model(s)),
{
    assert forall|i: int|
        0 <= i < recv_model(s).0.buffer.len() implies (#[trigger] recv_model(s).0.buffer[i]).to
        == s.identity by {
        assert(recv_model(s).0.buffer[i] == s.buffer[i + 1]);
    }
}

/// Closed is terminal: no event leaves it.
pub proof fn lemma_closed_terminal(e: SessionEvent)
    ensures
        next_state(SessionState::Closed, e) == SessionState::Closed,
{
}

/// Teardown unsubscribes: once a session is closed, a publish to its old
/// topic no longer has any effect on it.
pub proof fn lemma_closed_receives_nothing(s: SessionModel, topic: Seq<char>, payload: Seq<char>)
    ensures
        close_model(s).state == SessionState::Closed,
        !close_model(s).subscribed,
        deliver_to(close_model(s), topic, payload) == close_model(s),
{
}

} // verus!

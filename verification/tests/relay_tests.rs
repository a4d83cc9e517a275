use chat_relay::buffer::{OutboundBuffer, OUTBOUND_CAPACITY};
use chat_relay::config::resolve_env_value;
use chat_relay::errors::{ConfigError, SessionError};
use chat_relay::health::PingPongService;
use chat_relay::msg::{make_welcome, ChatMessage};
use chat_relay::relay::{
    inbound_decision, outbound_decision, ChatRelay, InboundAction, OutboundAction,
};
use chat_relay::session::{session_step, DeliverOutcome, SessionEvent, SessionState};

#[test]
fn welcome_is_first_item() {
    let mut relay = ChatRelay::new();
    let idx = relay
        .start_session(Some(String::from("alice")))
        .expect("valid identity must start a session");
    assert_eq!(idx, 0);
    assert_eq!(relay.session_count(), 1);
    let first = relay.client_recv(idx).expect("welcome must be buffered");
    assert_eq!(first.to, "alice");
    assert_eq!(first.message, "You are connected with id: alice");
    assert!(relay.client_recv(idx).is_none());
}

#[test]
fn missing_identity_rejected() {
    let mut relay = ChatRelay::new();
    let r = relay.start_session(None);
    assert_eq!(r, Err(SessionError::InvalidHandshake));
    assert_eq!(relay.session_count(), 0);
}

#[test]
fn empty_identity_rejected() {
    let mut relay = ChatRelay::new();
    let r = relay.start_session(Some(String::new()));
    assert_eq!(r, Err(SessionError::InvalidHandshake));
    assert_eq!(relay.session_count(), 0);
}

#[test]
fn delivery_preserves_publish_order() {
    let mut relay = ChatRelay::new();
    relay.start_session(Some(String::from("alice"))).unwrap();
    let bob = relay.start_session(Some(String::from("bob"))).unwrap();
    assert!(relay.client_recv(bob).is_some()); // bob's welcome

    let m1 = ChatMessage {
        to: String::from("bob"),
        message: String::from("first"),
    };
    let m2 = ChatMessage {
        to: String::from("bob"),
        message: String::from("second"),
    };
    relay.outbound_step(&m1);
    relay.outbound_step(&m2);
    assert_eq!(relay.pending_len_of(bob), 2);

    assert_eq!(relay.relay_step(bob), DeliverOutcome::Forwarded);
    assert_eq!(relay.relay_step(bob), DeliverOutcome::Forwarded);
    assert_eq!(relay.relay_step(bob), DeliverOutcome::Idle);

    let r1 = relay.client_recv(bob).unwrap();
    assert_eq!(r1.to, "bob");
    assert_eq!(r1.message, "first");
    let r2 = relay.client_recv(bob).unwrap();
    assert_eq!(r2.to, "bob");
    assert_eq!(r2.message, "second");
    assert!(relay.client_recv(bob).is_none());
}

#[test]
fn publish_without_subscriber_dropped() {
    let mut relay = ChatRelay::new();
    let alice = relay.start_session(Some(String::from("alice"))).unwrap();
    relay.publish(&String::from("nobody"), &String::from("lost"));
    assert_eq!(relay.pending_len_of(alice), 0);
    assert_eq!(relay.buffered_len_of(alice), 1); // only the welcome
    assert_eq!(relay.state_of(alice), SessionState::Active);
    assert!(relay.subscribed_of(alice));
}

#[test]
fn full_buffer_suspends_then_resumes() {
    let mut relay = ChatRelay::new();
    let alice = relay.start_session(Some(String::from("alice"))).unwrap();
    // The welcome occupies one slot; three more fill the buffer.
    for i in 0..4u32 {
        relay.publish(&String::from("alice"), &format!("m{}", i));
    }
    assert_eq!(relay.pending_len_of(alice), 4);
    for _ in 0..3 {
        assert_eq!(relay.relay_step(alice), DeliverOutcome::Forwarded);
    }
    assert_eq!(relay.buffered_len_of(alice), OUTBOUND_CAPACITY);
    assert_eq!(relay.pending_len_of(alice), 1);

    // The fifth delivery suspends instead of dropping the payload.
    assert_eq!(relay.relay_step(alice), DeliverOutcome::Suspended);
    assert_eq!(relay.buffered_len_of(alice), OUTBOUND_CAPACITY);
    assert_eq!(relay.pending_len_of(alice), 1);

    // One consumed item lets delivery resume; nothing was lost.
    let w = relay.client_recv(alice).unwrap();
    assert_eq!(w.message, "You are connected with id: alice");
    assert_eq!(relay.relay_step(alice), DeliverOutcome::Forwarded);
    assert_eq!(relay.pending_len_of(alice), 0);
    for i in 0..4u32 {
        let m = relay.client_recv(alice).unwrap();
        assert_eq!(m.to, "alice");
        assert_eq!(m.message, format!("m{}", i));
    }
    assert!(relay.client_recv(alice).is_none());
}

#[test]
fn close_unsubscribes_topic() {
    let mut relay = ChatRelay::new();
    let alice = relay.start_session(Some(String::from("alice"))).unwrap();
    relay.close_session(alice);
    assert_eq!(relay.state_of(alice), SessionState::Closed);
    assert!(!relay.subscribed_of(alice));
    // A later publish to the old topic has no effect.
    relay.publish(&String::from("alice"), &String::from("too late"));
    assert_eq!(relay.pending_len_of(alice), 0);
    // The client may still drain what was already forwarded.
    assert!(relay.client_recv(alice).is_some());
    assert!(relay.client_recv(alice).is_none());
}

#[test]
fn alice_and_bob_exchange() {
    let mut relay = ChatRelay::new();
    let alice = relay.start_session(Some(String::from("alice"))).unwrap();
    let w_alice = relay.client_recv(alice).unwrap();
    assert_eq!(w_alice.to, "alice");
    assert_eq!(w_alice.message, "You are connected with id: alice");

    let bob = relay.start_session(Some(String::from("bob"))).unwrap();
    let w_bob = relay.client_recv(bob).unwrap();
    assert_eq!(w_bob.to, "bob");
    assert_eq!(w_bob.message, "You are connected with id: bob");

    let hi = ChatMessage {
        to: String::from("bob"),
        message: String::from("hi"),
    };
    relay.outbound_step(&hi);
    assert_eq!(relay.relay_step(bob), DeliverOutcome::Forwarded);
    let got = relay.client_recv(bob).unwrap();
    assert_eq!(got.to, "bob");
    assert_eq!(got.message, "hi");
}

#[test]
fn buffer_is_fifo_and_bounded() {
    let mut b = OutboundBuffer::new();
    assert_eq!(b.len(), 0);
    assert!(b.dequeue().is_none());
    for i in 0..OUTBOUND_CAPACITY as u32 {
        let accepted = b.enqueue(ChatMessage {
            to: String::from("x"),
            message: format!("m{}", i),
        });
        assert!(accepted);
    }
    assert!(b.is_full());
    let refused = b.enqueue(ChatMessage {
        to: String::from("x"),
        message: String::from("overflow"),
    });
    assert!(!refused);
    assert_eq!(b.len(), OUTBOUND_CAPACITY);
    for i in 0..OUTBOUND_CAPACITY as u32 {
        let m = b.dequeue().unwrap();
        assert_eq!(m.message, format!("m{}", i));
    }
    assert!(b.dequeue().is_none());
}

#[test]
fn outbound_decision_publishes_or_stops() {
    let m = ChatMessage {
        to: String::from("bob"),
        message: String::from("hi"),
    };
    match outbound_decision(Some(m)) {
        OutboundAction::Publish { topic, payload } => {
            assert_eq!(topic, "bob");
            assert_eq!(payload, "hi");
        }
        OutboundAction::Stop { .. } => panic!("a message must be published"),
    }
    match outbound_decision(None) {
        OutboundAction::Stop { reason } => {
            assert_eq!(reason, SessionError::ClientDisconnected)
        }
        OutboundAction::Publish { .. } => panic!("a closed stream must stop the relay"),
    }
}

#[test]
fn inbound_decision_stamps_own_identity() {
    let identity = String::from("carol");
    match inbound_decision(&identity, Some(String::from("news"))) {
        InboundAction::Forward { message } => {
            assert_eq!(message.to, "carol");
            assert_eq!(message.message, "news");
        }
        InboundAction::Stop { .. } => panic!("a payload must be forwarded"),
    }
    match inbound_decision(&identity, None) {
        InboundAction::Stop { reason } => {
            assert_eq!(reason, SessionError::BusConnectionLost)
        }
        InboundAction::Forward { .. } => panic!("a lost subscription must stop the relay"),
    }
}

#[test]
fn state_machine_runs_to_closed() {
    let s = SessionState::Handshaking;
    let s = session_step(s, SessionEvent::HandshakeOk);
    assert_eq!(s, SessionState::Active);
    let s = session_step(s, SessionEvent::RelayTerminated);
    assert_eq!(s, SessionState::Draining);
    let s = session_step(s, SessionEvent::TeardownComplete);
    assert_eq!(s, SessionState::Closed);
    // Closed is terminal.
    assert_eq!(
        session_step(s, SessionEvent::HandshakeOk),
        SessionState::Closed
    );
    assert_eq!(
        session_step(s, SessionEvent::RelayTerminated),
        SessionState::Closed
    );
    // A failed handshake falls straight to Closed.
    assert_eq!(
        session_step(SessionState::Handshaking, SessionEvent::HandshakeFailed),
        SessionState::Closed
    );
}

#[test]
fn only_publish_failure_is_nonfatal() {
    assert!(SessionError::InvalidHandshake.is_session_fatal());
    assert!(SessionError::BusConnectionFailure.is_session_fatal());
    assert!(SessionError::BusConnectionLost.is_session_fatal());
    assert!(SessionError::ClientDisconnected.is_session_fatal());
    assert!(SessionError::ClientGone.is_session_fatal());
    assert!(!SessionError::PublishFailure.is_session_fatal());
}

#[test]
fn config_prefers_environment_over_default() {
    assert_eq!(
        resolve_env_value(Some(String::from("0.0.0.0")), Some(String::from("127.0.0.1"))),
        Ok(String::from("0.0.0.0"))
    );
    assert_eq!(
        resolve_env_value(None, Some(String::from("3001"))),
        Ok(String::from("3001"))
    );
    assert_eq!(
        resolve_env_value(None, None),
        Err(ConfigError::MissingVariable)
    );
}

#[test]
fn ping_answers_pong() {
    let svc = PingPongService::default();
    assert_eq!(svc.pong_message(), "pong");
}

#[test]
fn welcome_text_is_exact() {
    let w = make_welcome(&String::from("dave"));
    assert_eq!(w.to, "dave");
    assert_eq!(w.message, "You are connected with id: dave");
}

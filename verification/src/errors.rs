use vstd::prelude::*;

verus! {

/// Why a session ends or refuses to start.
#[derive(Clone, Copy, Debug, PartialEq, Eq, Structural)]
pub enum SessionError {
    /// The handshake metadata carried no usable identity; the session never starts.
    InvalidHandshake,
    /// A bus connection could not be opened at session start.
    BusConnectionFailure,
    /// A bus connection was lost mid-session; fatal for the session.
    BusConnectionLost,
    /// The client's request stream ended; the normal teardown trigger.
    ClientDisconnected,
    /// The client stopped consuming its response stream.
    ClientGone,
    /// A single outbound message failed to publish; non-fatal, per message.
    PublishFailure,
}

impl SessionError {
    /// Whether this failure ends its session. Every failure does, except a
    /// per-message publish failure, which is logged and skipped so that one
    /// bad destination does not end the session.
    pub fn is_session_fatal(&self) -> (r: bool)
        ensures
            r == !(*self is PublishFailure),
    {
        !matches!(self, SessionError::PublishFailure)
    }
}

/// Why a configuration value could not be resolved.
#[derive(Clone, Copy, Debug, PartialEq, Eq, Structural)]
pub enum ConfigError {
    /// The variable was not set and no default was documented for it.
    MissingVariable,
}

} // verus!

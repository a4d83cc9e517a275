//! A verified model of a chat relay: sessions identified by a client-supplied
//! identity exchange text messages through per-identity topics on a
//! publish/subscribe bus. The relay performs the per-session handshake,
//! forwards bus messages into a bounded per-session outbound buffer, and
//! publishes client messages to the topic each message names.

pub mod buffer;
pub mod config;
pub mod errors;
pub mod health;
pub mod laws;
pub mod msg;
pub mod relay;
pub mod session;

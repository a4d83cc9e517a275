use vstd::prelude::*;
use vstd::string::StringExecFns;

verus! {

/// Health-check service: answers every ping with a fixed acknowledgment.
#[derive(Debug, Default)]
pub struct PingPongService {}

impl PingPongService {
    /// The fixed reply carried by every pong.
    pub fn pong_message(&self) -> (r: String)
        ensures
            r@ == "pong"@,
    {
        String::from_str("pong")
    }
}

} // verus!

use vstd::prelude::*;

use crate::msg::{ChatMessage, MessageModel};

verus! {

/// Number of messages the per-session outbound buffer can hold. A producer
/// facing a full buffer suspends instead of dropping the message.
pub const OUTBOUND_CAPACITY: usize = 4;

/// Bounded FIFO of messages waiting for one client to consume them over its
/// response stream. This is the sole backpressure mechanism of a session.
pub struct OutboundBuffer {
    items: Vec<ChatMessage>,
}

impl View for OutboundBuffer {
    type V = Seq<MessageModel>;

    closed spec fn view(&self) -> Seq<MessageModel> {
        self.items@.map_values(|m: ChatMessage| m@)
    }
}

impl OutboundBuffer {
    /// The buffer never holds more than its capacity.
    pub open spec fn wf(self) -> bool {
        self@.len() <= OUTBOUND_CAPACITY
    }

    /// An empty buffer.
    pub fn new() -> (r: OutboundBuffer)
        ensures
            r@ == Seq::<MessageModel>::empty(),
            r.wf(),
    {
        let r = OutboundBuffer { items: Vec::new() };
        proof {
            assert(r@ =~= Seq::<MessageModel>::empty());
        }
        r
    }

    /// How many messages wait to be consumed.
    pub fn len(&self) -> (n: usize)
        ensures
            n == self@.len(),
    {
        self.items.len()
    }

    /// Whether the buffer is at capacity.
    pub fn is_full(&self) -> (r: bool)
        ensures
            r == (self@.len() >= OUTBOUND_CAPACITY),
    {
        self.items.len() >= OUTBOUND_CAPACITY
    }

    /// Appends `m` at the tail if there is room; a full buffer refuses the
    /// message and is left unchanged, so that the producer can suspend and
    /// retry rather than drop it.
    pub fn enqueue(&mut self, m: ChatMessage) -> (accepted: bool)
        requires
            old(self).wf(),
        ensures
            final(self).wf(),
            accepted == (old(self)@.len() < OUTBOUND_CAPACITY),
            accepted ==> final(self)@ == old(self)@.push(m@),
            !accepted ==> final(self)@ == old(self)@,
    {
        if self.items.len() < OUTBOUND_CAPACITY {
            let ghost before = self@;
            let ghost mv = m@;
            self.items.push(m);
            proof {
                assert(self@ =~= before.push(mv));
            }
            true
        } else {
            false
        }
    }

    /// Removes and returns the oldest message, if any.
    pub fn dequeue(&mut self) -> (r: Option<ChatMessage>)
        requires
            old(self).wf(),
        ensures
            final(self).wf(),
            old(self)@.len() == 0 ==> r is None && final(self)@ == old(self)@,
            old(self)@.len() > 0 ==> r is Some && r->0@ == old(self)@[0]
                && final(self)@ == old(self)@.drop_first(),
    {
        if self.items.len() == 0 {
            None
        } else {
            let ghost before = self@;
            let m = self.items.remove(0);
            proof {
                assert(self@ =~= before.drop_first());
            }
            Some(m)
        }
    }
}

} // verus!

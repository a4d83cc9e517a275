use vstd::prelude::*;
use vstd::string::StringExecFns;

verus! {

/// One chat message: the destination topic and the text carried to it.
pub struct ChatMessage {
    pub to: String,
    pub message: String,
}

/// Mathematical image of a `ChatMessage`: both fields as character sequences.
pub ghost struct MessageModel {
    pub to: Seq<char>,
    pub message: Seq<char>,
}

impl View for ChatMessage {
    type V = MessageModel;

    open spec fn view(&self) -> MessageModel {
        MessageModel { to: self.to@, message: self.message@ }
    }
}

impl ChatMessage {
    /// Builds a message addressed to `to` carrying `message`.
    pub fn new(to: String, message: String) -> (r: ChatMessage)
        ensures
            r@ == (MessageModel { to: to@, message: message@ }),
    {
        ChatMessage { to, message }
    }
}

/// The text of the welcome message for a given identity.
pub open spec fn welcome_text(identity: Seq<char>) -> Seq<char> {
    "You are connected with id: "@ + identity
}

/// The welcome message a fresh session queues for its client: addressed to the
/// session's own identity.
pub open spec fn welcome_message(identity: Seq<char>) -> MessageModel {
    MessageModel { to: identity, message: welcome_text(identity) }
}

/// Builds the welcome message for `identity`.
pub fn make_welcome(identity: &String) -> (r: ChatMessage)
    ensures
        r@ == welcome_message(identity@),
{
    let text = String::from_str("You are connected with id: ").concat(identity.as_str());
    ChatMessage { to: identity.clone(), message: text }
}

} // verus!

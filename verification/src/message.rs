//! An inbound chat line with what is known of its sender.

use vstd::prelude::*;

verus! {

/// One line of chat, as the transport hands it over.
#[derive(Debug, Clone, PartialEq, Eq)]
pub struct ChatMessage {
    /// The channel the line was written in.
    pub channel_login: String,
    /// The sender's stable login, by which they are queued and addressed.
    pub sender_login: String,
    /// The sender's display name.
    pub sender_name: String,
    /// The line itself.
    pub message_text: String,
}

/// A chat line as contracts see it.
pub struct ChatLine {
    pub channel_login: Seq<char>,
    pub sender_login: Seq<char>,
    pub sender_name: Seq<char>,
    pub message_text: Seq<char>,
}

impl View for ChatMessage {
    type V = ChatLine;

    open spec fn view(&self) -> ChatLine {
        ChatLine {
            channel_login: self.channel_login@,
            sender_login: self.sender_login@,
            sender_name: self.sender_name@,
            message_text: self.message_text@,
        }
    }
}

} // verus!

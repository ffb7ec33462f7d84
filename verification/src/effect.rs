//! Outbound effects: the messages that are to be sent, and their wording.

use vstd::prelude::*;
use vstd::string::StringExecFns;
use crate::text::texts;

verus! {

/// A message to be sent. Nothing in this library sends one: the caller does.
#[derive(Debug, Clone, PartialEq, Eq)]
pub enum OutboundEffect {
    /// A line in the stream chat `channel`, addressed to one user.
    Reply { channel: String, text: String },
    /// A line in the stream chat `channel`, for everyone.
    Broadcast { channel: String, text: String },
    /// A post in the community chat channel `channel_id`.
    Post { channel_id: u64, text: String },
}

/// An outbound effect as contracts see it.
pub enum Effect {
    Reply { channel: Seq<char>, text: Seq<char> },
    Broadcast { channel: Seq<char>, text: Seq<char> },
    Post { channel_id: u64, text: Seq<char> },
}

impl View for OutboundEffect {
    type V = Effect;

    open spec fn view(&self) -> Effect {
        match self {
            OutboundEffect::Reply { channel, text } => Effect::Reply {
                channel: channel@,
                text: text@,
            },
            OutboundEffect::Broadcast { channel, text } => Effect::Broadcast {
                channel: channel@,
                text: text@,
            },
            OutboundEffect::Post { channel_id, text } => Effect::Post {
                channel_id: *channel_id,
                text: text@,
            },
        }
    }
}

impl OutboundEffect {
    /// A copy of this effect.
    pub fn copy(&self) -> (copy: OutboundEffect)
        ensures
            copy@ == self@,
    {
        match self {
            OutboundEffect::Reply { channel, text } => OutboundEffect::Reply {
                channel: channel.clone(),
                text: text.clone(),
            },
            OutboundEffect::Broadcast { channel, text } => OutboundEffect::Broadcast {
                channel: channel.clone(),
                text: text.clone(),
            },
            OutboundEffect::Post { channel_id, text } => OutboundEffect::Post {
                channel_id: *channel_id,
                text: text.clone(),
            },
        }
    }
}

/// The effects that a sequence holds, in order.
pub open spec fn effects_of(v: Seq<OutboundEffect>) -> Seq<Effect> {
    Seq::new(v.len(), |i: int| v[i]@)
}

/// A line addressed to `login`: an at-sign, the login, a colon, a space and
/// the body.
pub open spec fn addressed(login: Seq<char>, body: Seq<char>) -> Seq<char> {
    "@"@ + login + ": "@ + body
}

/// The parts joined, with `sep` between each two.
pub open spec fn joined_text(parts: Seq<Seq<char>>, sep: Seq<char>) -> Seq<char>
    decreases parts.len(),
{
    if parts.len() == 0 {
        Seq::empty()
    } else if parts.len() == 1 {
        parts[0]
    } else {
        joined_text(parts.drop_last(), sep) + sep + parts.last()
    }
}

/// The body of the answer to a queue listing.
pub open spec fn queue_listing(names: Seq<Seq<char>>) -> Seq<char> {
    "Current queue: "@ + joined_text(names, ", "@)
}

/// `code` as a fenced block of Rust code.
pub open spec fn code_block(code: Seq<char>) -> Seq<char> {
    "```rs\n"@ + code + "\n```"@
}

/// Builds [`addressed`].
pub fn address(login: &str, body: &str) -> (line: String)
    ensures
        line@ == addressed(login@, body@),
{
    let mut line = String::from_str("@");
    line.append(login);
    line.append(": ");
    line.append(body);
    line
}

/// Builds [`joined_text`].
pub fn join_texts(parts: &Vec<String>, sep: &str) -> (line: String)
    ensures
        line@ == joined_text(texts(parts@), sep@),
{
    let mut line = String::new();
    let mut i: usize = 0;
    while i < parts.len()
        invariant
            i <= parts@.len(),
            line@ == joined_text(texts(parts@).take(i as int), sep@),
        decreases parts@.len() - i,
    {
        assert(texts(parts@).take(i + 1).drop_last() =~= texts(parts@).take(i as int));
        if i > 0 {
            line.append(sep);
        }
        line.append(parts[i].as_str());
        i = i + 1;
    }
    assert(texts(parts@).take(i as int) =~= texts(parts@));
    line
}

/// Builds [`queue_listing`].
pub fn list_queue(names: &Vec<String>) -> (line: String)
    ensures
        line@ == queue_listing(texts(names@)),
{
    let mut line = String::from_str("Current queue: ");
    let listed = join_texts(names, ", ");
    line.append(listed.as_str());
    line
}

/// Builds [`code_block`].
pub fn fence(code: &str) -> (block: String)
    ensures
        block@ == code_block(code@),
{
    let mut block = String::from_str("```rs\n");
    block.append(code);
    block.append("\n```");
    block
}

} // verus!

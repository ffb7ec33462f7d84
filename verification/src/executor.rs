//! What a command does: how it changes the queue and which messages it asks
//! to be sent.
//!
//! Executing a command never fails. A join that the queue refuses is
//! answered like one that it accepts, and its result is handed out beside
//! the answer. A snippet that the formatter does not format is relayed as
//! it was written.

use vstd::prelude::*;
use vstd::string::StringExecFns;
use crate::command::{Command, TwitchCommand};
use crate::effect::{
    address, addressed, code_block, effects_of, fence, list_queue, queue_listing, Effect,
    OutboundEffect,
};
use crate::formatter::{format_result, format_result_spec, FormatterRun, Run};
use crate::message::{ChatLine, ChatMessage};
use crate::queue_manager::{identities, join_spec, Entry, QueueError, QueueManager, UserType};

verus! {

/// What executing a command came to.
#[derive(Debug)]
pub enum Handled {
    /// The command is done. `effects` are to be sent, in order.
    /// `join_result` is what the queue answered, where the command was a
    /// join.
    Done { effects: Vec<OutboundEffect>, join_result: Option<Result<(), QueueError>> },
    /// The command relays `snippet`, which is to be formatted first: the
    /// post that follows from the formatter's run is [`relay_snippet`].
    Format { snippet: String },
}

/// The result of executing a command as contracts see it.
pub enum Outcome {
    Done { effects: Seq<Effect>, join_result: Option<Result<(), QueueError>> },
    Format { snippet: Seq<char> },
}

impl View for Handled {
    type V = Outcome;

    open spec fn view(&self) -> Outcome {
        match self {
            Handled::Done { effects, join_result } => Outcome::Done {
                effects: effects_of(effects@),
                join_result: *join_result,
            },
            Handled::Format { snippet } => Outcome::Format { snippet: snippet@ },
        }
    }
}

/// An answer in the channel of `msg`, addressed to its sender.
pub open spec fn reply_to(msg: ChatLine, body: Seq<char>) -> Effect {
    Effect::Reply { channel: msg.channel_login, text: addressed(msg.sender_login, body) }
}

/// What executing `command` on behalf of the sender of `msg` does: the
/// queue it leaves, and its outcome.
pub open spec fn handle_spec(command: Command, msg: ChatLine, channel_id: u64, q: Seq<Entry>) -> (
    Seq<Entry>,
    Outcome,
) {
    match command {
        Command::Join => (
            join_spec(q, msg.sender_login, UserType::Default).0,
            Outcome::Done {
                effects: seq![reply_to(msg, "Join requested"@)],
                join_result: Some(join_spec(q, msg.sender_login, UserType::Default).1),
            },
        ),
        Command::Queue => (
            q,
            Outcome::Done {
                effects: seq![reply_to(msg, queue_listing(identities(q)))],
                join_result: None,
            },
        ),
        Command::ReplyWith(text) => (
            q,
            Outcome::Done { effects: seq![reply_to(msg, text)], join_result: None },
        ),
        Command::Broadcast(text) => (
            q,
            Outcome::Done {
                effects: seq![Effect::Broadcast { channel: msg.channel_login, text }],
                join_result: None,
            },
        ),
        Command::Nothing => (
            q,
            Outcome::Done {
                effects: seq![Effect::Post { channel_id, text: "This does nothing"@ }],
                join_result: None,
            },
        ),
        Command::DiscordSnippet(snippet) => (q, Outcome::Format { snippet }),
    }
}

/// The text to relay for `snippet` after the formatter's run: the formatted
/// text where the run gave one, the snippet as it was written where it gave
/// none.
pub open spec fn relayed_code(snippet: Seq<char>, run: Run) -> Seq<char> {
    match format_result_spec(run) {
        Ok(formatted) => formatted,
        Err(_) => snippet,
    }
}

/// The post that relays `snippet` after the formatter's run.
pub open spec fn relay_spec(channel_id: u64, snippet: Seq<char>, run: Run) -> Effect {
    Effect::Post { channel_id, text: code_block(relayed_code(snippet, run)) }
}

/// The post that relays `snippet` to the community chat channel
/// `channel_id`, given how the formatter's run on it ended.
pub fn relay_snippet(channel_id: u64, snippet: String, run: FormatterRun) -> (post: OutboundEffect)
    ensures
        post@ == relay_spec(channel_id, snippet@, run@),
{
    let code = match format_result(run) {
        Ok(formatted) => formatted,
        Err(_) => snippet,
    };
    OutboundEffect::Post { channel_id, text: fence(code.as_str()) }
}

/// Where the formatter could not be run, refused the snippet or wrote
/// bytes that are no text, the post holds the snippet as it was written
/// between the two fence lines: never an empty text, never an error's.
pub proof fn lemma_unformatted_snippet_is_relayed(channel_id: u64, snippet: Seq<char>, run: Run)
    requires
        format_result_spec(run) is Err,
    ensures
        relay_spec(channel_id, snippet, run) == (Effect::Post {
            channel_id,
            text: "```rs\n"@ + snippet + "\n```"@,
        }),
        relay_spec(channel_id, snippet, run)->Post_text.len() == snippet.len() + 10,
{
    reveal_strlit("```rs\n");
    reveal_strlit("\n```");
}

impl TwitchCommand {
    /// Executes the command on behalf of the sender of `msg`.
    ///
    /// `discord_channel_id` is the community chat channel that posts go to.
    pub fn handle(self, msg: ChatMessage, discord_channel_id: u64, queue: &mut QueueManager) -> (done:
        Handled)
        ensures
            (final(queue)@, done@) == handle_spec(self@, msg@, discord_channel_id, old(queue)@),
    {
        let ghost line = msg@;
        let ghost q = queue@;
        let handled = match self {
            TwitchCommand::Join => {
                let text = address(msg.sender_login.as_str(), "Join requested");
                let join_result = queue.join(msg.sender_login, UserType::Default);
                let mut effects: Vec<OutboundEffect> = Vec::new();
                effects.push(OutboundEffect::Reply { channel: msg.channel_login, text });
                Handled::Done { effects, join_result: Some(join_result) }
            },
            TwitchCommand::Queue => {
                let names = queue.queue();
                let listing = list_queue(&names);
                let text = address(msg.sender_login.as_str(), listing.as_str());
                let mut effects: Vec<OutboundEffect> = Vec::new();
                effects.push(OutboundEffect::Reply { channel: msg.channel_login, text });
                Handled::Done { effects, join_result: None }
            },
            TwitchCommand::ReplyWith(reply) => {
                let text = address(msg.sender_login.as_str(), reply.as_str());
                let mut effects: Vec<OutboundEffect> = Vec::new();
                effects.push(OutboundEffect::Reply { channel: msg.channel_login, text });
                Handled::Done { effects, join_result: None }
            },
            TwitchCommand::Broadcast(text) => {
                let mut effects: Vec<OutboundEffect> = Vec::new();
                effects.push(OutboundEffect::Broadcast { channel: msg.channel_login, text });
                Handled::Done { effects, join_result: None }
            },
            TwitchCommand::Nothing => {
                let mut effects: Vec<OutboundEffect> = Vec::new();
                effects.push(
                    OutboundEffect::Post {
                        channel_id: discord_channel_id,
                        text: String::from_str("This does nothing"),
                    },
                );
                Handled::Done { effects, join_result: None }
            },
            TwitchCommand::DiscordSnippet(snippet) => Handled::Format { snippet },
        };
        assert(handled@ =~= handle_spec(self@, line, discord_channel_id, q).1) by {
            match handled@ {
                Outcome::Done { effects, join_result } => {
                    assert(effects =~= handle_spec(
                        self@,
                        line,
                        discord_channel_id,
                        q,
                    ).1->Done_effects);
                },
                Outcome::Format { snippet } => {},
            }
        }
        handled
    }
}

} // verus!

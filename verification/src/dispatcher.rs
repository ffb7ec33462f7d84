//! The decisions of the dispatch loop.
//!
//! The caller owns the transports and runs the loop. It performs the action
//! that the dispatcher asks for and hands back what came of it as an event:
//! after [`Action::Receive`] the next chat line or the end of the stream,
//! after [`Action::Format`] the formatter's run, after [`Action::Send`]
//! whether the message went out. The dispatcher answers each event with the
//! next action. An event that does not answer the action asked for changes
//! nothing, and the action is asked for again.

use vstd::prelude::*;
use crate::command::{classify_spec, Binding, CommandTable};
use crate::effect::{effects_of, Effect, OutboundEffect};
use crate::executor::{handle_spec, relay_snippet, relay_spec, Handled, Outcome};
use crate::formatter::{FormatterRun, Run};
use crate::message::{ChatLine, ChatMessage};
use crate::queue_manager::{Entry, QueueManager};

verus! {

/// A message could not be sent.
#[derive(Debug, Clone, Copy, PartialEq, Eq)]
pub struct SendError;

/// What the caller reports to the dispatcher.
#[derive(Debug)]
pub enum Event {
    /// A chat line came in.
    Message(ChatMessage),
    /// The formatter's run on the snippet asked for has ended.
    Formatted(FormatterRun),
    /// The send asked for has ended.
    Sent(Result<(), SendError>),
    /// The stream of chat lines has ended, or the process is to stop.
    Closed,
}

/// An event as contracts see it.
pub enum Occurrence {
    Message(ChatLine),
    Formatted(Run),
    Sent(Result<(), SendError>),
    Closed,
}

impl View for Event {
    type V = Occurrence;

    open spec fn view(&self) -> Occurrence {
        match self {
            Event::Message(msg) => Occurrence::Message(msg@),
            Event::Formatted(run) => Occurrence::Formatted(run@),
            Event::Sent(result) => Occurrence::Sent(*result),
            Event::Closed => Occurrence::Closed,
        }
    }
}

/// What the dispatcher asks the caller to do next.
#[derive(Debug)]
pub enum Action {
    /// Wait for the next chat line.
    Receive,
    /// Run the formatter on this snippet.
    Format(String),
    /// Send this message.
    Send(OutboundEffect),
    /// Leave the loop.
    Stop,
}

/// An action as contracts see it.
pub enum Request {
    Receive,
    Format(Seq<char>),
    Send(Effect),
    Stop,
}

impl View for Action {
    type V = Request;

    open spec fn view(&self) -> Request {
        match self {
            Action::Receive => Request::Receive,
            Action::Format(snippet) => Request::Format(snippet@),
            Action::Send(effect) => Request::Send(effect@),
            Action::Stop => Request::Stop,
        }
    }
}

/// The state of a dispatcher as contracts see it.
pub struct DispatchState {
    /// The command table in use.
    pub table: Seq<Binding>,
    /// The community chat channel that posts go to.
    pub channel_id: u64,
    /// The snippet that is with the formatter, if one is.
    pub formatting: Option<Seq<char>>,
    /// The messages still to be sent, the next one first.
    pub outbox: Seq<Effect>,
    /// Whether the loop has ended.
    pub stopped: bool,
    /// How many sends went out.
    pub delivered: u64,
    /// How many sends failed.
    pub failed: u64,
}

/// The action that a dispatcher in state `s` asks for.
pub open spec fn pending(s: DispatchState) -> Request {
    if s.stopped {
        Request::Stop
    } else if s.formatting is Some {
        Request::Format(s.formatting->0)
    } else if s.outbox.len() > 0 {
        Request::Send(s.outbox[0])
    } else {
        Request::Receive
    }
}

/// A count that has seen one more, and stays at its largest value.
pub open spec fn counted(n: u64) -> u64 {
    if n < u64::MAX {
        (n + 1) as u64
    } else {
        n
    }
}

/// How a chat line changes a dispatcher that waits for one, and the queue.
pub open spec fn on_message(s: DispatchState, q: Seq<Entry>, msg: ChatLine) -> (
    DispatchState,
    Seq<Entry>,
) {
    match classify_spec(s.table, msg.message_text) {
        None => (s, q),
        Some(command) => match handle_spec(command, msg, s.channel_id, q).1 {
            Outcome::Done { effects, join_result } => (
                DispatchState { outbox: effects, ..s },
                handle_spec(command, msg, s.channel_id, q).0,
            ),
            Outcome::Format { snippet } => (
                DispatchState { formatting: Some(snippet), ..s },
                handle_spec(command, msg, s.channel_id, q).0,
            ),
        },
    }
}

/// How an event changes a dispatcher and the queue.
pub open spec fn step_spec(s: DispatchState, q: Seq<Entry>, event: Occurrence) -> (
    DispatchState,
    Seq<Entry>,
) {
    if s.stopped {
        (s, q)
    } else {
        match (event, pending(s)) {
            (Occurrence::Closed, _) => (DispatchState { stopped: true, ..s }, q),
            (Occurrence::Message(msg), Request::Receive) => on_message(s, q, msg),
            (Occurrence::Formatted(run), Request::Format(snippet)) => (
                DispatchState {
                    formatting: None,
                    outbox: seq![relay_spec(s.channel_id, snippet, run)],
                    ..s
                },
                q,
            ),
            (Occurrence::Sent(Ok(_)), Request::Send(_)) => (
                DispatchState {
                    outbox: s.outbox.drop_first(),
                    delivered: counted(s.delivered),
                    ..s
                },
                q,
            ),
            (Occurrence::Sent(Err(_)), Request::Send(_)) => (
                DispatchState { outbox: s.outbox.drop_first(), failed: counted(s.failed), ..s },
                q,
            ),
            _ => (s, q),
        }
    }
}

/// Whether two states differ in nothing but their counts of sends.
pub open spec fn same_but_counts(a: DispatchState, b: DispatchState) -> bool {
    a == (DispatchState { delivered: a.delivered, failed: a.failed, ..b })
}

/// The loop ends on `Closed` only: a dispatcher is stopped after an event
/// exactly if it was stopped before it or the event is `Closed`.
pub proof fn lemma_only_closed_stops(s: DispatchState, q: Seq<Entry>, event: Occurrence)
    ensures
        step_spec(s, q, event).0.stopped <==> s.stopped || event is Closed,
{
}

/// A send that fails holds nothing up. The dispatcher goes on as after a
/// send that went out: the message leaves the outbox, the queue stays as it
/// is, the loop is not stopped, the same action is asked for, and whatever
/// event comes next is taken in the same way. Only the counts differ.
pub proof fn lemma_failed_send_holds_nothing_up(
    s: DispatchState,
    q: Seq<Entry>,
    error: SendError,
    next: Occurrence,
)
    requires
        pending(s) is Send,
    ensures
        ({
            let failed = step_spec(s, q, Occurrence::Sent(Err(error)));
            let went_out = step_spec(s, q, Occurrence::Sent(Ok(())));
            let failed_then = step_spec(failed.0, failed.1, next);
            let went_out_then = step_spec(went_out.0, went_out.1, next);
            &&& !failed.0.stopped
            &&& failed.1 == q
            &&& failed.0.outbox == s.outbox.drop_first()
            &&& failed.0.failed == counted(s.failed)
            &&& same_but_counts(failed.0, went_out.0)
            &&& pending(failed.0) == pending(went_out.0)
            &&& same_but_counts(failed_then.0, went_out_then.0)
            &&& failed_then.1 == went_out_then.1
            &&& pending(failed_then.0) == pending(went_out_then.0)
        }),
{
}

/// After the last message of the outbox has been tried, with whatever
/// result, the dispatcher waits for the next chat line, and that line is
/// executed against the queue as every line is.
pub proof fn lemma_next_line_is_processed_after_a_send(
    s: DispatchState,
    q: Seq<Entry>,
    result: Result<(), SendError>,
    line: ChatLine,
)
    requires
        pending(s) is Send,
        s.outbox.len() == 1,
    ensures
        ({
            let after = step_spec(s, q, Occurrence::Sent(result));
            &&& pending(after.0) == Request::Receive
            &&& step_spec(after.0, after.1, Occurrence::Message(line)) == on_message(
                after.0,
                q,
                line,
            )
        }),
{
}

/// The decisions of one dispatch loop.
#[derive(Debug)]
pub struct Dispatcher {
    table: CommandTable,
    discord_channel_id: u64,
    formatting: Option<String>,
    outbox: Vec<OutboundEffect>,
    stopped: bool,
    delivered: u64,
    failed: u64,
}

impl View for Dispatcher {
    type V = DispatchState;

    closed spec fn view(&self) -> DispatchState {
        DispatchState {
            table: self.table@,
            channel_id: self.discord_channel_id,
            formatting: match self.formatting {
                Some(snippet) => Some(snippet@),
                None => None,
            },
            outbox: effects_of(self.outbox@),
            stopped: self.stopped,
            delivered: self.delivered,
            failed: self.failed,
        }
    }
}

impl Dispatcher {
    /// A dispatcher that recognises commands by `table` and posts to the
    /// community chat channel `discord_channel_id`. It waits for the first
    /// chat line.
    pub fn new(table: CommandTable, discord_channel_id: u64) -> (d: Dispatcher)
        ensures
            d@ == (DispatchState {
                table: table@,
                channel_id: discord_channel_id,
                formatting: None,
                outbox: Seq::empty(),
                stopped: false,
                delivered: 0,
                failed: 0,
            }),
    {
        let d = Dispatcher {
            table,
            discord_channel_id,
            formatting: None,
            outbox: Vec::new(),
            stopped: false,
            delivered: 0,
            failed: 0,
        };
        assert(d@.outbox =~= Seq::empty());
        d
    }

    /// The action that the dispatcher asks for.
    pub fn pending_action(&self) -> (action: Action)
        ensures
            action@ == pending(self@),
    {
        if self.stopped {
            Action::Stop
        } else if let Some(snippet) = &self.formatting {
            Action::Format(snippet.clone())
        } else if self.outbox.len() > 0 {
            Action::Send(self.outbox[0].copy())
        } else {
            Action::Receive
        }
    }

    /// How many sends went out.
    pub fn delivered(&self) -> (n: u64)
        ensures
            n == self@.delivered,
    {
        self.delivered
    }

    /// How many sends failed.
    pub fn failed(&self) -> (n: u64)
        ensures
            n == self@.failed,
    {
        self.failed
    }

    /// Takes in what came of the action asked for, and asks for the next.
    pub fn step(&mut self, queue: &mut QueueManager, event: Event) -> (action: Action)
        ensures
            (final(self)@, final(queue)@) == step_spec(old(self)@, old(queue)@, event@),
            action@ == pending(final(self)@),
    {
        let ghost s = self@;
        if !self.stopped {
            match event {
                Event::Closed => {
                    self.stopped = true;
                },
                Event::Message(msg) => {
                    if self.formatting.is_none() && self.outbox.len() == 0 {
                        match self.table.classify(msg.message_text.as_str()) {
                            None => {},
                            Some(command) => {
                                match command.handle(msg, self.discord_channel_id, queue) {
                                    Handled::Done { effects, .. } => {
                                        self.outbox = effects;
                                    },
                                    Handled::Format { snippet } => {
                                        self.formatting = Some(snippet);
                                    },
                                }
                            },
                        }
                    }
                },
                Event::Formatted(run) => {
                    let ghost r = run@;
                    if let Some(snippet) = self.formatting.take() {
                        let post = relay_snippet(self.discord_channel_id, snippet, run);
                        let mut outbox: Vec<OutboundEffect> = Vec::new();
                        outbox.push(post);
                        self.outbox = outbox;
                        assert(self@.outbox =~= seq![relay_spec(s.channel_id, s.formatting->0, r)]);
                    }
                },
                Event::Sent(result) => {
                    if self.formatting.is_none() && self.outbox.len() > 0 {
                        let _sent = self.outbox.remove(0);
                        assert(self@.outbox =~= s.outbox.drop_first());
                        match result {
                            Ok(_) => {
                                if self.delivered < u64::MAX {
                                    self.delivered = self.delivered + 1;
                                }
                            },
                            Err(_) => {
                                if self.failed < u64::MAX {
                                    self.failed = self.failed + 1;
                                }
                            },
                        }
                    }
                },
            }
        }
        self.pending_action()
    }
}

} // verus!

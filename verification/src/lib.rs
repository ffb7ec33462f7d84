//! The command engine of a chat bot that bridges a stream chat to a
//! community chat: it recognises commands in chat lines, keeps the queue of
//! waiting participants, and says which messages are to be sent where.
//!
//! Nothing here performs I/O. The caller receives chat lines, runs the
//! snippet formatter and sends messages; [`dispatcher::Dispatcher`] tells it
//! what to do next and takes in what came of it.
//!
//! * [`command`]: commands, the command table, and how a chat line is
//!   recognised as a command.
//! * [`queue_manager`]: the queue of waiting participants.
//! * [`executor`]: what each command does to the queue and which messages
//!   it asks for.
//! * [`formatter`]: what a run of the snippet formatter amounts to.
//! * [`effect`]: the messages to be sent, and their wording.
//! * [`dispatcher`]: the decisions of the dispatch loop.

pub mod command;
pub mod dispatcher;
pub mod effect;
pub mod executor;
pub mod formatter;
pub mod message;
pub mod queue_manager;
pub mod text;
pub mod whitespace;

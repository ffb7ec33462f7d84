use ferris_bot::command::{CommandKind, CommandTable};
use ferris_bot::dispatcher::{Action, Dispatcher, Event, SendError};
use ferris_bot::effect::OutboundEffect;
use ferris_bot::formatter::FormatterRun;
use ferris_bot::message::ChatMessage;
use ferris_bot::queue_manager::QueueManager;

const CHANNEL_ID: u64 = 99;

fn standard_table() -> CommandTable {
    CommandTable::standard("d".to_owned(), "b".to_owned(), "z".to_owned())
}

fn line(login: &str, text: &str) -> Event {
    Event::Message(ChatMessage {
        channel_login: "stream".to_owned(),
        sender_login: login.to_owned(),
        sender_name: login.to_owned(),
        message_text: text.to_owned(),
    })
}

fn reply(text: &str) -> OutboundEffect {
    OutboundEffect::Reply { channel: "stream".to_owned(), text: text.to_owned() }
}

fn is_receive(action: &Action) -> bool {
    matches!(action, Action::Receive)
}

fn sent(action: Action) -> OutboundEffect {
    match action {
        Action::Send(effect) => effect,
        other => panic!("no send asked for: {:?}", other),
    }
}

#[test]
fn a_new_dispatcher_waits_for_a_line() {
    let d = Dispatcher::new(standard_table(), CHANNEL_ID);
    assert!(is_receive(&d.pending_action()));
    assert_eq!(d.delivered(), 0);
    assert_eq!(d.failed(), 0);
}

#[test]
fn plain_chat_asks_for_nothing() {
    let mut d = Dispatcher::new(standard_table(), CHANNEL_ID);
    let mut q = QueueManager::new();
    assert!(is_receive(&d.step(&mut q, line("a", "hello there"))));
    assert!(is_receive(&d.step(&mut q, line("a", "!unknown"))));
    assert!(q.is_empty());
}

#[test]
fn a_command_is_answered_then_the_next_line_awaited() {
    let mut d = Dispatcher::new(standard_table(), CHANNEL_ID);
    let mut q = QueueManager::new();
    let action = d.step(&mut q, line("alice", "!join"));
    assert_eq!(sent(action), reply("@alice: Join requested"));
    assert_eq!(q.queue(), vec!["alice".to_owned()]);
    assert!(is_receive(&d.step(&mut q, Event::Sent(Ok(())))));
    assert_eq!(d.delivered(), 1);
    assert_eq!(d.failed(), 0);
}

#[test]
fn a_failed_send_does_not_stop_the_next_line() {
    let mut d = Dispatcher::new(standard_table(), CHANNEL_ID);
    let mut q = QueueManager::new();
    let action = d.step(&mut q, line("alice", "!join"));
    assert_eq!(sent(action), reply("@alice: Join requested"));
    let action = d.step(&mut q, Event::Sent(Err(SendError)));
    assert!(is_receive(&action));
    assert_eq!(d.failed(), 1);
    assert_eq!(d.delivered(), 0);
    let action = d.step(&mut q, line("bob", "!join"));
    assert_eq!(sent(action), reply("@bob: Join requested"));
    assert_eq!(q.queue(), vec!["alice".to_owned(), "bob".to_owned()]);
    assert!(is_receive(&d.step(&mut q, Event::Sent(Ok(())))));
    let action = d.step(&mut q, line("carol", "!queue"));
    assert_eq!(sent(action), reply("@carol: Current queue: alice, bob"));
    assert_eq!(d.failed(), 1);
    assert_eq!(d.delivered(), 1);
}

#[test]
fn a_snippet_is_formatted_then_posted() {
    let mut d = Dispatcher::new(standard_table(), CHANNEL_ID);
    let mut q = QueueManager::new();
    match d.step(&mut q, line("alice", "!code let x=1;")) {
        Action::Format(snippet) => assert_eq!(snippet, "let x=1;"),
        other => panic!("no formatting asked for: {:?}", other),
    }
    let run = FormatterRun::Exited { success: true, stdout: b"let x = 1;\n".to_vec() };
    let action = d.step(&mut q, Event::Formatted(run));
    assert_eq!(
        sent(action),
        OutboundEffect::Post { channel_id: CHANNEL_ID, text: "```rs\nlet x = 1;\n\n```".to_owned() }
    );
    assert!(is_receive(&d.step(&mut q, Event::Sent(Ok(())))));
}

#[test]
fn a_snippet_is_posted_as_written_when_the_formatter_fails() {
    let mut d = Dispatcher::new(standard_table(), CHANNEL_ID);
    let mut q = QueueManager::new();
    let _ = d.step(&mut q, line("alice", "!code x+y"));
    let action = d.step(&mut q, Event::Formatted(FormatterRun::NotRun));
    assert_eq!(
        sent(action),
        OutboundEffect::Post { channel_id: CHANNEL_ID, text: "```rs\nx+y\n```".to_owned() }
    );
}

#[test]
fn an_event_not_asked_for_changes_nothing() {
    let mut d = Dispatcher::new(standard_table(), CHANNEL_ID);
    let mut q = QueueManager::new();
    assert!(is_receive(&d.step(&mut q, Event::Sent(Ok(())))));
    assert!(is_receive(&d.step(&mut q, Event::Formatted(FormatterRun::NotRun))));
    assert_eq!(d.delivered(), 0);
    let action = d.step(&mut q, line("alice", "!join"));
    assert_eq!(sent(action), reply("@alice: Join requested"));
    let action = d.step(&mut q, line("bob", "!join"));
    assert_eq!(sent(action), reply("@alice: Join requested"));
    let action = d.step(&mut q, Event::Formatted(FormatterRun::NotRun));
    assert_eq!(sent(action), reply("@alice: Join requested"));
    assert_eq!(q.queue(), vec!["alice".to_owned()]);
    let _ = d.step(&mut q, Event::Sent(Ok(())));
    match d.step(&mut q, line("alice", "!code a")) {
        Action::Format(snippet) => assert_eq!(snippet, "a"),
        other => panic!("no formatting asked for: {:?}", other),
    }
    match d.step(&mut q, Event::Sent(Ok(()))) {
        Action::Format(snippet) => assert_eq!(snippet, "a"),
        other => panic!("no formatting asked for: {:?}", other),
    }
    match d.step(&mut q, line("bob", "!join")) {
        Action::Format(snippet) => assert_eq!(snippet, "a"),
        other => panic!("no formatting asked for: {:?}", other),
    }
    assert_eq!(q.queue(), vec!["alice".to_owned()]);
    assert_eq!(d.delivered(), 1);
}

#[test]
fn closing_stops_the_loop_for_good() {
    let mut d = Dispatcher::new(standard_table(), CHANNEL_ID);
    let mut q = QueueManager::new();
    let _ = d.step(&mut q, line("alice", "!join"));
    assert!(matches!(d.step(&mut q, Event::Closed), Action::Stop));
    assert!(matches!(d.step(&mut q, line("bob", "!join")), Action::Stop));
    assert!(matches!(d.step(&mut q, Event::Sent(Ok(()))), Action::Stop));
    assert!(matches!(d.pending_action(), Action::Stop));
    assert_eq!(q.queue(), vec!["alice".to_owned()]);
    assert_eq!(d.delivered(), 0);
}

#[test]
fn the_dispatcher_uses_the_table_it_was_given() {
    let mut table = CommandTable::new();
    assert_eq!(table.bind("!hi", CommandKind::Broadcast("hello all".to_owned())), Ok(()));
    let mut d = Dispatcher::new(table, CHANNEL_ID);
    let mut q = QueueManager::new();
    assert!(is_receive(&d.step(&mut q, line("alice", "!join"))));
    let action = d.step(&mut q, line("alice", "!hi you"));
    assert_eq!(
        sent(action),
        OutboundEffect::Broadcast { channel: "stream".to_owned(), text: "hello all".to_owned() }
    );
}

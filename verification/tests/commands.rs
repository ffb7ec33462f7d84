use ferris_bot::command::{
    valid_token, CommandKind, CommandTable, TableError, TwitchCommand, TRIGGER,
};
use ferris_bot::message::ChatMessage;
use ferris_bot::text::chars_of;
use ferris_bot::whitespace::char_is_whitespace;

fn standard_table() -> CommandTable {
    CommandTable::standard(
        "dave says hi".to_owned(),
        "bazylia says hi".to_owned(),
        "zoya says hi".to_owned(),
    )
}

fn test_msg(message_text: &str) -> ChatMessage {
    ChatMessage {
        channel_login: "channel_login".to_owned(),
        sender_login: "login".to_owned(),
        sender_name: "name".to_owned(),
        message_text: message_text.to_owned(),
    }
}

#[test]
fn parsing_commands() {
    let table = standard_table();
    assert!(TwitchCommand::parse_msg(&test_msg("regular message text"), &table).is_none());
    assert_eq!(
        TwitchCommand::parse_msg(&test_msg("!join"), &table),
        Some(TwitchCommand::Join)
    );
    assert_eq!(
        TwitchCommand::parse_msg(&test_msg("!code snippet"), &table),
        Some(TwitchCommand::DiscordSnippet("snippet".into()))
    );
}

#[test]
fn classify_join_queue_and_code() {
    let table = standard_table();
    assert_eq!(table.classify("!join"), Some(TwitchCommand::Join));
    assert_eq!(table.classify("!queue"), Some(TwitchCommand::Queue));
    assert_eq!(
        table.classify("!code x+y"),
        Some(TwitchCommand::DiscordSnippet("x+y".to_owned()))
    );
}

#[test]
fn text_without_trigger_is_no_command() {
    let table = standard_table();
    assert_eq!(table.classify(""), None);
    assert_eq!(table.classify("join"), None);
    assert_eq!(table.classify("hello !join"), None);
    assert_eq!(table.classify(" !join"), None);
    assert_eq!(table.classify("\t!queue"), None);
    assert_eq!(table.classify("?join"), None);
}

#[test]
fn every_standard_token_selects_its_command() {
    let table = standard_table();
    assert_eq!(table.classify("!join"), Some(TwitchCommand::Join));
    assert_eq!(table.classify("!queue"), Some(TwitchCommand::Queue));
    assert_eq!(
        table.classify("!pythonsucks"),
        Some(TwitchCommand::ReplyWith("This must be Lord".to_owned()))
    );
    assert_eq!(
        table.classify("!stonk"),
        Some(TwitchCommand::ReplyWith("yOu shOULd Buy AMC sTOnKS".to_owned()))
    );
    assert_eq!(
        table.classify("!c++"),
        Some(TwitchCommand::ReplyWith("segmentation fault".to_owned()))
    );
    assert_eq!(
        table.classify("!dave"),
        Some(TwitchCommand::Broadcast("dave says hi".to_owned()))
    );
    assert_eq!(
        table.classify("!bazylia"),
        Some(TwitchCommand::Broadcast("bazylia says hi".to_owned()))
    );
    assert_eq!(
        table.classify("!zoya"),
        Some(TwitchCommand::Broadcast("zoya says hi".to_owned()))
    );
    assert_eq!(
        table.classify("!discord"),
        Some(TwitchCommand::Broadcast("https://discord.gg/UyrsFX7N".to_owned()))
    );
    assert_eq!(table.classify("!nothing"), Some(TwitchCommand::Nothing));
    assert_eq!(
        table.classify("!code"),
        Some(TwitchCommand::DiscordSnippet(String::new()))
    );
}

#[test]
fn standard_tokens_are_listed_in_order() {
    let table = standard_table();
    assert_eq!(table.len(), 11);
    assert_eq!(
        table.tokens(),
        vec![
            "!join".to_owned(),
            "!queue".to_owned(),
            "!pythonsucks".to_owned(),
            "!stonk".to_owned(),
            "!c++".to_owned(),
            "!dave".to_owned(),
            "!bazylia".to_owned(),
            "!zoya".to_owned(),
            "!discord".to_owned(),
            "!nothing".to_owned(),
            "!code".to_owned(),
        ]
    );
}

#[test]
fn unknown_tokens_are_passed_over() {
    let table = standard_table();
    assert_eq!(table.classify("!"), None);
    assert_eq!(table.classify("!unknown"), None);
    assert_eq!(table.classify("!joinx"), None);
    assert_eq!(table.classify("!Join"), None);
    assert_eq!(table.classify("!JOIN"), None);
    assert_eq!(table.classify("!jo in"), None);
    assert_eq!(table.classify("!! join"), None);
}

#[test]
fn words_after_the_token_do_not_change_the_command() {
    let table = standard_table();
    assert_eq!(table.classify("!join please"), Some(TwitchCommand::Join));
    assert_eq!(table.classify("!join\tnow"), Some(TwitchCommand::Join));
    assert_eq!(table.classify("!queue   "), Some(TwitchCommand::Queue));
    assert_eq!(
        table.classify("!c++ is great"),
        Some(TwitchCommand::ReplyWith("segmentation fault".to_owned()))
    );
}

#[test]
fn snippet_payload_is_kept_verbatim() {
    let table = standard_table();
    assert_eq!(
        table.classify("!code fn main() { let x  =  1; }"),
        Some(TwitchCommand::DiscordSnippet(
            "fn main() { let x  =  1; }".to_owned()
        ))
    );
    assert_eq!(
        table.classify("!code  indented"),
        Some(TwitchCommand::DiscordSnippet(" indented".to_owned()))
    );
    assert_eq!(
        table.classify("!code a\n  b\n"),
        Some(TwitchCommand::DiscordSnippet("a\n  b\n".to_owned()))
    );
    assert_eq!(
        table.classify("!code\tx"),
        Some(TwitchCommand::DiscordSnippet("x".to_owned()))
    );
    assert_eq!(
        table.classify("!code !code x"),
        Some(TwitchCommand::DiscordSnippet("!code x".to_owned()))
    );
    assert_eq!(
        table.classify("!code "),
        Some(TwitchCommand::DiscordSnippet(String::new()))
    );
    assert_eq!(
        table.classify("!code h\u{e9}llo \u{1F980}"),
        Some(TwitchCommand::DiscordSnippet("h\u{e9}llo \u{1F980}".to_owned()))
    );
}

#[test]
fn a_bound_broadcast_is_recognised() {
    let mut table = standard_table();
    assert_eq!(table.classify("!hello"), None);
    assert_eq!(
        table.bind("!hello", CommandKind::Broadcast("hello, chat".to_owned())),
        Ok(())
    );
    assert_eq!(table.len(), 12);
    assert_eq!(
        table.classify("!hello"),
        Some(TwitchCommand::Broadcast("hello, chat".to_owned()))
    );
    assert_eq!(
        table.lookup("!hello"),
        Some(&CommandKind::Broadcast("hello, chat".to_owned()))
    );
    assert_eq!(table.lookup("!goodbye"), None);
    assert_eq!(table.lookup("!join"), Some(&CommandKind::Join));
}

#[test]
fn an_empty_table_knows_no_command() {
    let table = CommandTable::new();
    assert_eq!(table.len(), 0);
    assert_eq!(table.classify("!join"), None);
    assert_eq!(table.tokens(), Vec::<String>::new());
}

#[test]
fn binding_an_invalid_token_is_refused() {
    let mut table = CommandTable::new();
    assert_eq!(
        table.bind("", CommandKind::Join),
        Err(TableError::InvalidToken)
    );
    assert_eq!(
        table.bind("join", CommandKind::Join),
        Err(TableError::InvalidToken)
    );
    assert_eq!(
        table.bind("!jo in", CommandKind::Join),
        Err(TableError::InvalidToken)
    );
    assert_eq!(
        table.bind("!join ", CommandKind::Join),
        Err(TableError::InvalidToken)
    );
    assert_eq!(
        table.bind("!jo\u{a0}in", CommandKind::Join),
        Err(TableError::InvalidToken)
    );
    assert_eq!(table.len(), 0);
}

#[test]
fn binding_a_token_twice_is_refused() {
    let mut table = standard_table();
    assert_eq!(
        table.bind("!join", CommandKind::Nothing),
        Err(TableError::DuplicateToken)
    );
    assert_eq!(table.len(), 11);
    assert_eq!(table.classify("!join"), Some(TwitchCommand::Join));
}

#[test]
fn instantiate_gives_the_payload_to_snippets_only() {
    assert_eq!(
        CommandKind::DiscordSnippet.instantiate("x".to_owned()),
        TwitchCommand::DiscordSnippet("x".to_owned())
    );
    assert_eq!(
        CommandKind::Join.instantiate("x".to_owned()),
        TwitchCommand::Join
    );
    assert_eq!(
        CommandKind::ReplyWith("r".to_owned()).instantiate("x".to_owned()),
        TwitchCommand::ReplyWith("r".to_owned())
    );
}

#[test]
fn whitespace_is_what_std_calls_whitespace() {
    let mut code: u32 = 0;
    while code <= 0x10FFFF {
        if let Some(c) = char::from_u32(code) {
            assert_eq!(char_is_whitespace(c), c.is_whitespace(), "U+{:04X}", code);
        }
        code += 1;
    }
}

#[test]
fn tokens_end_at_any_whitespace() {
    let table = standard_table();
    for sep in ['\u{20}', '\u{9}', '\u{a}', '\u{d}', '\u{a0}', '\u{3000}', '\u{2028}'] {
        let mut line = String::from("!code");
        line.push(sep);
        line.push_str("x y");
        assert_eq!(
            table.classify(&line),
            Some(TwitchCommand::DiscordSnippet("x y".to_owned()))
        );
    }
}

#[test]
fn valid_tokens_start_with_the_trigger_and_hold_no_whitespace() {
    assert_eq!(TRIGGER, '!');
    assert!(valid_token("!"));
    assert!(valid_token("!join"));
    assert!(valid_token("!c++"));
    assert!(valid_token("!!"));
    assert!(valid_token("!\u{e9}t\u{e9}"));
    assert!(!valid_token(""));
    assert!(!valid_token("join"));
    assert!(!valid_token("j!oin"));
    assert!(!valid_token(" !join"));
    assert!(!valid_token("!join\n"));
    assert!(!valid_token("!a\u{2003}b"));
}

#[test]
fn chars_of_lists_every_character() {
    assert_eq!(chars_of(""), Vec::<char>::new());
    assert_eq!(chars_of("!c++"), vec!['!', 'c', '+', '+']);
    assert_eq!(chars_of("h\u{e9} \u{1F980}"), vec!['h', '\u{e9}', ' ', '\u{1F980}']);
}

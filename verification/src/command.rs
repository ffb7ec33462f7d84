//! Commands and how chat lines are recognised as commands.
//!
//! A line is a command attempt if it begins with [`TRIGGER`]. Its first token
//! runs up to the first whitespace character; a [`CommandTable`] says which
//! command the token stands for. What follows the token and the one
//! whitespace character that ends it is the line's payload.

use vstd::prelude::*;
use vstd::string::{StrSliceExecFns, StringExecFns};
use crate::message::ChatMessage;
use crate::text::{chars_of, texts};
use crate::whitespace::{char_is_whitespace, is_whitespace};

verus! {

/// The character that marks a chat line as a command attempt.
pub const TRIGGER: char = '!';

/// One recognised chat instruction.
#[derive(Debug, Clone, PartialEq, Eq)]
pub enum TwitchCommand {
    /// The sender asks to join the queue.
    Join,
    /// The sender asks who is waiting.
    Queue,
    /// A fixed answer, addressed to the sender.
    ReplyWith(String),
    /// A fixed text for the whole channel.
    Broadcast(String),
    /// A diagnostic note for the community chat.
    Nothing,
    /// A code snippet to be relayed to the community chat.
    DiscordSnippet(String),
}

/// A command as contracts see it.
pub enum Command {
    Join,
    Queue,
    ReplyWith(Seq<char>),
    Broadcast(Seq<char>),
    Nothing,
    DiscordSnippet(Seq<char>),
}

impl View for TwitchCommand {
    type V = Command;

    open spec fn view(&self) -> Command {
        match self {
            TwitchCommand::Join => Command::Join,
            TwitchCommand::Queue => Command::Queue,
            TwitchCommand::ReplyWith(text) => Command::ReplyWith(text@),
            TwitchCommand::Broadcast(text) => Command::Broadcast(text@),
            TwitchCommand::Nothing => Command::Nothing,
            TwitchCommand::DiscordSnippet(text) => Command::DiscordSnippet(text@),
        }
    }
}

/// What a token of the table stands for: a command, but for the payload that
/// only the line can give.
#[derive(Debug, Clone, PartialEq, Eq)]
pub enum CommandKind {
    Join,
    Queue,
    ReplyWith(String),
    Broadcast(String),
    Nothing,
    DiscordSnippet,
}

/// A command kind as contracts see it.
pub enum Kind {
    Join,
    Queue,
    ReplyWith(Seq<char>),
    Broadcast(Seq<char>),
    Nothing,
    DiscordSnippet,
}

impl View for CommandKind {
    type V = Kind;

    open spec fn view(&self) -> Kind {
        match self {
            CommandKind::Join => Kind::Join,
            CommandKind::Queue => Kind::Queue,
            CommandKind::ReplyWith(text) => Kind::ReplyWith(text@),
            CommandKind::Broadcast(text) => Kind::Broadcast(text@),
            CommandKind::Nothing => Kind::Nothing,
            CommandKind::DiscordSnippet => Kind::DiscordSnippet,
        }
    }
}

/// The command that a kind becomes on a line with the given payload.
pub open spec fn command_of(kind: Kind, payload: Seq<char>) -> Command {
    match kind {
        Kind::Join => Command::Join,
        Kind::Queue => Command::Queue,
        Kind::ReplyWith(text) => Command::ReplyWith(text),
        Kind::Broadcast(text) => Command::Broadcast(text),
        Kind::Nothing => Command::Nothing,
        Kind::DiscordSnippet => Command::DiscordSnippet(payload),
    }
}

/// Whether `text` begins with the trigger character.
pub open spec fn is_command_attempt(text: Seq<char>) -> bool {
    text.len() > 0 && text[0] == TRIGGER
}

/// The index of the first whitespace character of `text`, or its length if it
/// has none.
pub open spec fn token_end(text: Seq<char>) -> int
    decreases text.len(),
{
    if text.len() == 0 || is_whitespace(text[0]) {
        0
    } else {
        1 + token_end(text.drop_first())
    }
}

/// The first token of `text`: what stands before its first whitespace
/// character.
pub open spec fn first_token(text: Seq<char>) -> Seq<char> {
    text.subrange(0, token_end(text))
}

/// What follows the first token of `text` and the one whitespace character
/// that ends it, verbatim: further whitespace, and the token written once
/// more, belong to it. Empty where the token ends the text.
pub open spec fn payload(text: Seq<char>) -> Seq<char> {
    if token_end(text) < text.len() {
        text.subrange(token_end(text) + 1, text.len() as int)
    } else {
        Seq::empty()
    }
}

/// A token that a line can begin with: it starts with the trigger character
/// and holds no whitespace.
pub open spec fn is_trigger_token(token: Seq<char>) -> bool {
    &&& is_command_attempt(token)
    &&& forall|i: int| 0 <= i < token.len() ==> !is_whitespace(#[trigger] token[i])
}

/// `token_end` is the one index with no whitespace before it and a
/// whitespace character, or the end, at it.
pub proof fn lemma_token_end(text: Seq<char>)
    ensures
        0 <= token_end(text) <= text.len(),
        forall|i: int| 0 <= i < token_end(text) ==> !is_whitespace(#[trigger] text[i]),
        token_end(text) < text.len() ==> is_whitespace(text[token_end(text)]),
    decreases text.len(),
{
    if text.len() == 0 || is_whitespace(text[0]) {
    } else {
        let rest = text.drop_first();
        lemma_token_end(rest);
        assert forall|i: int| 0 <= i < token_end(text) implies !is_whitespace(
            #[trigger] text[i],
        ) by {
            if i > 0 {
                assert(text[i] == rest[i - 1]);
            }
        }
    }
}

/// Any index with no whitespace before it and a whitespace character, or the
/// end, at it is `token_end`.
pub proof fn lemma_token_end_unique(text: Seq<char>, k: int)
    requires
        0 <= k <= text.len(),
        forall|i: int| 0 <= i < k ==> !is_whitespace(#[trigger] text[i]),
        k == text.len() || is_whitespace(text[k]),
    ensures
        k == token_end(text),
{
    lemma_token_end(text);
}

/// One line of a command table: a token and what it stands for.
#[derive(Debug, Clone, PartialEq, Eq)]
pub struct TableEntry {
    pub token: String,
    pub kind: CommandKind,
}

/// A line of a command table as contracts see it.
pub struct Binding {
    pub token: Seq<char>,
    pub kind: Kind,
}

impl View for TableEntry {
    type V = Binding;

    open spec fn view(&self) -> Binding {
        Binding { token: self.token@, kind: self.kind@ }
    }
}

/// The bindings that a sequence of table lines holds, in order.
pub open spec fn bindings_of(v: Seq<TableEntry>) -> Seq<Binding> {
    Seq::new(v.len(), |i: int| v[i]@)
}

/// Why a token was not bound.
#[derive(Debug, Clone, Copy, PartialEq, Eq)]
pub enum TableError {
    /// The token does not start with the trigger character, or holds
    /// whitespace: no line could ever select it.
    InvalidToken,
    /// The token already stands for a command.
    DuplicateToken,
}

/// Whether `token` has a line in `table`.
pub open spec fn is_bound(table: Seq<Binding>, token: Seq<char>) -> bool {
    exists|i: int| 0 <= i < table.len() && (#[trigger] table[i]).token == token
}

/// The index of the line of `token`, where it has one.
pub open spec fn binding_index(table: Seq<Binding>, token: Seq<char>) -> int {
    choose|i: int| 0 <= i < table.len() && (#[trigger] table[i]).token == token
}

/// What `token` stands for in `table`, if anything.
pub open spec fn lookup_spec(table: Seq<Binding>, token: Seq<char>) -> Option<Kind> {
    if is_bound(table, token) {
        Some(table[binding_index(table, token)].kind)
    } else {
        None
    }
}

/// No token has two lines.
pub open spec fn distinct_tokens(table: Seq<Binding>) -> bool {
    forall|i: int, j: int|
        0 <= i < j < table.len() ==> (#[trigger] table[i]).token != (#[trigger] table[j]).token
}

/// The rules every command table obeys: no token has two lines, and every
/// token is one that a line can begin with.
pub open spec fn table_wf(table: Seq<Binding>) -> bool {
    &&& distinct_tokens(table)
    &&& forall|i: int| 0 <= i < table.len() ==> is_trigger_token((#[trigger] table[i]).token)
}

/// What binding a token does: the table it leaves and the answer it gives.
pub open spec fn bind_spec(table: Seq<Binding>, token: Seq<char>, kind: Kind) -> (
    Seq<Binding>,
    Result<(), TableError>,
) {
    if !is_trigger_token(token) {
        (table, Err(TableError::InvalidToken))
    } else if is_bound(table, token) {
        (table, Err(TableError::DuplicateToken))
    } else {
        (table.push(Binding { token, kind }), Ok(()))
    }
}

/// The tokens of `table`, in the order they were bound.
pub open spec fn tokens_of(table: Seq<Binding>) -> Seq<Seq<char>> {
    Seq::new(table.len(), |i: int| table[i].token)
}

/// The command that `text` is, by `table`: none unless the text is a command
/// attempt and its first token is bound; otherwise what the token stands
/// for, with the payload of the text where the command carries one.
pub open spec fn classify_spec(table: Seq<Binding>, text: Seq<char>) -> Option<Command> {
    if !is_command_attempt(text) {
        None
    } else {
        match lookup_spec(table, first_token(text)) {
            None => None,
            Some(kind) => Some(command_of(kind, payload(text))),
        }
    }
}

/// The standard commands, in the order they are bound. Three of them
/// broadcast a text that the deployment supplies.
pub open spec fn standard_bindings(dave: Seq<char>, bazylia: Seq<char>, zoya: Seq<char>) -> Seq<
    Binding,
> {
    seq![
        Binding { token: "!join"@, kind: Kind::Join },
        Binding { token: "!queue"@, kind: Kind::Queue },
        Binding { token: "!pythonsucks"@, kind: Kind::ReplyWith("This must be Lord"@) },
        Binding { token: "!stonk"@, kind: Kind::ReplyWith("yOu shOULd Buy AMC sTOnKS"@) },
        Binding { token: "!c++"@, kind: Kind::ReplyWith("segmentation fault"@) },
        Binding { token: "!dave"@, kind: Kind::Broadcast(dave) },
        Binding { token: "!bazylia"@, kind: Kind::Broadcast(bazylia) },
        Binding { token: "!zoya"@, kind: Kind::Broadcast(zoya) },
        Binding { token: "!discord"@, kind: Kind::Broadcast("https://discord.gg/UyrsFX7N"@) },
        Binding { token: "!nothing"@, kind: Kind::Nothing },
        Binding { token: "!code"@, kind: Kind::DiscordSnippet },
    ]
}

/// The view of an optional command.
pub open spec fn opt_command(o: Option<TwitchCommand>) -> Option<Command> {
    match o {
        Some(c) => Some(c@),
        None => None,
    }
}

/// In a table without duplicates a token is found at one index only.
pub proof fn lemma_binding_index(table: Seq<Binding>, k: int)
    requires
        distinct_tokens(table),
        0 <= k < table.len(),
    ensures
        is_bound(table, table[k].token),
        binding_index(table, table[k].token) == k,
        lookup_spec(table, table[k].token) == Some(table[k].kind),
{
}

/// Binding keeps the rules of the table.
pub proof fn lemma_bound_wf(table: Seq<Binding>, token: Seq<char>, kind: Kind)
    requires
        table_wf(table),
    ensures
        table_wf(bind_spec(table, token, kind).0),
{
}

/// A line that does not begin with the trigger character is no command,
/// whatever the table knows.
pub proof fn lemma_plain_text_is_no_command(table: Seq<Binding>, text: Seq<char>)
    requires
        !is_command_attempt(text),
    ensures
        classify_spec(table, text) is None,
{
}

/// A token that a line can begin with is the first token of itself and of
/// every line made of it, one whitespace character and any rest; the rest
/// is that line's payload.
pub proof fn lemma_line_of_token(token: Seq<char>, sep: char, rest: Seq<char>)
    requires
        is_trigger_token(token),
        is_whitespace(sep),
    ensures
        first_token(token) == token,
        payload(token) == Seq::<char>::empty(),
        is_command_attempt(token + seq![sep] + rest),
        first_token(token + seq![sep] + rest) == token,
        payload(token + seq![sep] + rest) == rest,
{
    let line = token + seq![sep] + rest;
    lemma_token_end_unique(token, token.len() as int);
    assert forall|i: int| 0 <= i < token.len() implies !is_whitespace(#[trigger] line[i]) by {}
    lemma_token_end_unique(line, token.len() as int);
}

/// A command attempt whose first token is bound is the command that the
/// token stands for, with the payload of the line.
pub proof fn lemma_bound_token_selects_its_command(table: Seq<Binding>, k: int, text: Seq<char>)
    requires
        distinct_tokens(table),
        0 <= k < table.len(),
        is_command_attempt(text),
        first_token(text) == table[k].token,
    ensures
        classify_spec(table, text) == Some(command_of(table[k].kind, payload(text))),
{
    lemma_binding_index(table, k);
}

/// A command attempt whose first token is not bound is no command.
pub proof fn lemma_unbound_token_is_no_command(table: Seq<Binding>, text: Seq<char>)
    requires
        !is_bound(table, first_token(text)),
    ensures
        classify_spec(table, text) is None,
{
}

/// The standard table obeys the rules of a table, and each of its tokens
/// stands for its command.
pub proof fn lemma_standard_bindings(dave: Seq<char>, bazylia: Seq<char>, zoya: Seq<char>)
    ensures
        ({
            let table = standard_bindings(dave, bazylia, zoya);
            &&& table_wf(table)
            &&& lookup_spec(table, "!join"@) == Some(Kind::Join)
            &&& lookup_spec(table, "!queue"@) == Some(Kind::Queue)
            &&& lookup_spec(table, "!pythonsucks"@) == Some(Kind::ReplyWith("This must be Lord"@))
            &&& lookup_spec(table, "!stonk"@) == Some(
                Kind::ReplyWith("yOu shOULd Buy AMC sTOnKS"@),
            )
            &&& lookup_spec(table, "!c++"@) == Some(Kind::ReplyWith("segmentation fault"@))
            &&& lookup_spec(table, "!dave"@) == Some(Kind::Broadcast(dave))
            &&& lookup_spec(table, "!bazylia"@) == Some(Kind::Broadcast(bazylia))
            &&& lookup_spec(table, "!zoya"@) == Some(Kind::Broadcast(zoya))
            &&& lookup_spec(table, "!discord"@) == Some(
                Kind::Broadcast("https://discord.gg/UyrsFX7N"@),
            )
            &&& lookup_spec(table, "!nothing"@) == Some(Kind::Nothing)
            &&& lookup_spec(table, "!code"@) == Some(Kind::DiscordSnippet)
        }),
{
    reveal_standard_tokens();
    let t = standard_bindings(dave, bazylia, zoya);
    assert forall|i: int, j: int| 0 <= i < j < t.len() implies (#[trigger] t[i]).token != (
    #[trigger] t[j]).token by {
        if t[i].token == t[j].token {
            assert(t[i].token.len() == t[j].token.len());
            assert(t[i].token[1] == t[j].token[1]);
        }
    }
    lemma_binding_index(t, 0);
    lemma_binding_index(t, 1);
    lemma_binding_index(t, 2);
    lemma_binding_index(t, 3);
    lemma_binding_index(t, 4);
    lemma_binding_index(t, 5);
    lemma_binding_index(t, 6);
    lemma_binding_index(t, 7);
    lemma_binding_index(t, 8);
    lemma_binding_index(t, 9);
    lemma_binding_index(t, 10);
}

/// What the standard tokens are, character by character.
proof fn reveal_standard_tokens()
    ensures
        "!join"@ == seq!['!', 'j', 'o', 'i', 'n'],
        "!queue"@ == seq!['!', 'q', 'u', 'e', 'u', 'e'],
        "!pythonsucks"@ == seq!['!', 'p', 'y', 't', 'h', 'o', 'n', 's', 'u', 'c', 'k', 's'],
        "!stonk"@ == seq!['!', 's', 't', 'o', 'n', 'k'],
        "!c++"@ == seq!['!', 'c', '+', '+'],
        "!dave"@ == seq!['!', 'd', 'a', 'v', 'e'],
        "!bazylia"@ == seq!['!', 'b', 'a', 'z', 'y', 'l', 'i', 'a'],
        "!zoya"@ == seq!['!', 'z', 'o', 'y', 'a'],
        "!discord"@ == seq!['!', 'd', 'i', 's', 'c', 'o', 'r', 'd'],
        "!nothing"@ == seq!['!', 'n', 'o', 't', 'h', 'i', 'n', 'g'],
        "!code"@ == seq!['!', 'c', 'o', 'd', 'e'],
{
    reveal_strlit("!join");
    reveal_strlit("!queue");
    reveal_strlit("!pythonsucks");
    reveal_strlit("!stonk");
    reveal_strlit("!c++");
    reveal_strlit("!dave");
    reveal_strlit("!bazylia");
    reveal_strlit("!zoya");
    reveal_strlit("!discord");
    reveal_strlit("!nothing");
    reveal_strlit("!code");
    assert("!join"@ =~= seq!['!', 'j', 'o', 'i', 'n']);
    assert("!queue"@ =~= seq!['!', 'q', 'u', 'e', 'u', 'e']);
    assert("!pythonsucks"@ =~= seq!['!', 'p', 'y', 't', 'h', 'o', 'n', 's', 'u', 'c', 'k', 's']);
    assert("!stonk"@ =~= seq!['!', 's', 't', 'o', 'n', 'k']);
    assert("!c++"@ =~= seq!['!', 'c', '+', '+']);
    assert("!dave"@ =~= seq!['!', 'd', 'a', 'v', 'e']);
    assert("!bazylia"@ =~= seq!['!', 'b', 'a', 'z', 'y', 'l', 'i', 'a']);
    assert("!zoya"@ =~= seq!['!', 'z', 'o', 'y', 'a']);
    assert("!discord"@ =~= seq!['!', 'd', 'i', 's', 'c', 'o', 'r', 'd']);
    assert("!nothing"@ =~= seq!['!', 'n', 'o', 't', 'h', 'i', 'n', 'g']);
    assert("!code"@ =~= seq!['!', 'c', 'o', 'd', 'e']);
}

/// Decides [`is_trigger_token`].
pub fn valid_token(token: &str) -> (b: bool)
    ensures
        b == is_trigger_token(token@),
{
    let chars = chars_of(token);
    if chars.len() == 0 || chars[0] != TRIGGER {
        return false;
    }
    let mut i: usize = 0;
    while i < chars.len()
        invariant
            i <= chars@.len(),
            chars@ == token@,
            forall|j: int| 0 <= j < i ==> !is_whitespace(#[trigger] token@[j]),
        decreases chars@.len() - i,
    {
        if char_is_whitespace(chars[i]) {
            return false;
        }
        i = i + 1;
    }
    true
}

impl CommandKind {
    /// The command that this kind becomes on a line with the given payload.
    pub fn instantiate(&self, payload: String) -> (command: TwitchCommand)
        ensures
            command@ == command_of(self@, payload@),
    {
        match self {
            CommandKind::Join => TwitchCommand::Join,
            CommandKind::Queue => TwitchCommand::Queue,
            CommandKind::ReplyWith(text) => TwitchCommand::ReplyWith(text.clone()),
            CommandKind::Broadcast(text) => TwitchCommand::Broadcast(text.clone()),
            CommandKind::Nothing => TwitchCommand::Nothing,
            CommandKind::DiscordSnippet => TwitchCommand::DiscordSnippet(payload),
        }
    }
}

/// The table that says which token stands for which command.
#[derive(Debug)]
pub struct CommandTable {
    entries: Vec<TableEntry>,
}

impl View for CommandTable {
    type V = Seq<Binding>;

    closed spec fn view(&self) -> Seq<Binding> {
        bindings_of(self.entries@)
    }
}

impl CommandTable {
    #[verifier::type_invariant]
    spec fn well_formed(self) -> bool {
        table_wf(self@)
    }

    /// Shows to a caller's proof that the rules of a table hold of this one.
    /// It does nothing when run.
    pub fn rules_hold(&self)
        ensures
            table_wf(self@),
    {
        proof {
            use_type_invariant(self);
        }
    }

    /// A table that knows no command.
    pub fn new() -> (table: CommandTable)
        ensures
            table@ == Seq::<Binding>::empty(),
    {
        CommandTable { entries: Vec::new() }
    }

    /// The table of the standard commands. `dave`, `bazylia` and `zoya` are
    /// the texts of the three broadcasts that go by these names.
    pub fn standard(dave: String, bazylia: String, zoya: String) -> (table: CommandTable)
        ensures
            table@ == standard_bindings(dave@, bazylia@, zoya@),
    {
        proof {
            lemma_standard_bindings(dave@, bazylia@, zoya@);
        }
        let mut table = CommandTable::new();
        let _ = table.bind("!join", CommandKind::Join);
        let _ = table.bind("!queue", CommandKind::Queue);
        let _ = table.bind(
            "!pythonsucks",
            CommandKind::ReplyWith(String::from_str("This must be Lord")),
        );
        let _ = table.bind(
            "!stonk",
            CommandKind::ReplyWith(String::from_str("yOu shOULd Buy AMC sTOnKS")),
        );
        let _ = table.bind("!c++", CommandKind::ReplyWith(String::from_str("segmentation fault")));
        let _ = table.bind("!dave", CommandKind::Broadcast(dave));
        let _ = table.bind("!bazylia", CommandKind::Broadcast(bazylia));
        let _ = table.bind("!zoya", CommandKind::Broadcast(zoya));
        let _ = table.bind(
            "!discord",
            CommandKind::Broadcast(String::from_str("https://discord.gg/UyrsFX7N")),
        );
        let _ = table.bind("!nothing", CommandKind::Nothing);
        let _ = table.bind("!code", CommandKind::DiscordSnippet);
        table
    }

    /// The number of tokens bound.
    pub fn len(&self) -> (n: usize)
        ensures
            n == self@.len(),
    {
        self.entries.len()
    }

    /// What `token` stands for, if anything.
    pub fn lookup(&self, token: &str) -> (r: Option<&CommandKind>)
        ensures
            match r {
                Some(kind) => lookup_spec(self@, token@) == Some(kind@),
                None => lookup_spec(self@, token@) is None,
            },
    {
        proof {
            use_type_invariant(self);
        }
        let wanted = String::from_str(token);
        let mut i: usize = 0;
        while i < self.entries.len()
            invariant
                i <= self.entries@.len(),
                wanted@ == token@,
                table_wf(self@),
                forall|j: int| 0 <= j < i ==> (#[trigger] self@[j]).token != token@,
            decreases self.entries@.len() - i,
        {
            if self.entries[i].token == wanted {
                proof {
                    lemma_binding_index(self@, i as int);
                }
                return Some(&self.entries[i].kind);
            }
            i = i + 1;
        }
        None
    }

    /// Lets `token` stand for `kind`.
    ///
    /// Refused where no line could select the token, and where the token is
    /// bound already.
    pub fn bind(&mut self, token: &str, kind: CommandKind) -> (r: Result<(), TableError>)
        ensures
            (final(self)@, r) == bind_spec(old(self)@, token@, kind@),
            table_wf(final(self)@),
    {
        proof {
            use_type_invariant(&*self);
            lemma_bound_wf(self@, token@, kind@);
        }
        if !valid_token(token) {
            return Err(TableError::InvalidToken);
        }
        if self.lookup(token).is_some() {
            return Err(TableError::DuplicateToken);
        }
        let ghost before = self@;
        let mut entries: Vec<TableEntry> = Vec::new();
        std::mem::swap(&mut self.entries, &mut entries);
        entries.push(TableEntry { token: String::from_str(token), kind });
        assert(bindings_of(entries@) =~= before.push(
            Binding { token: token@, kind: kind@ },
        ));
        self.entries = entries;
        Ok(())
    }

    /// The tokens that are bound, in the order they were bound.
    pub fn tokens(&self) -> (tokens: Vec<String>)
        ensures
            texts(tokens@) == tokens_of(self@),
    {
        let mut tokens: Vec<String> = Vec::new();
        let mut i: usize = 0;
        while i < self.entries.len()
            invariant
                i <= self.entries@.len(),
                tokens@.len() == i,
                forall|j: int| 0 <= j < i ==> (#[trigger] tokens@[j])@ == self@[j].token,
            decreases self.entries@.len() - i,
        {
            tokens.push(self.entries[i].token.clone());
            i = i + 1;
        }
        tokens
    }

    /// Recognises the command in a chat line, if it is one.
    ///
    /// No command unless the line begins with the trigger character and its
    /// first token is bound in this table. A token that is not bound is no
    /// error: the line is passed over.
    pub fn classify(&self, text: &str) -> (command: Option<TwitchCommand>)
        ensures
            opt_command(command) == classify_spec(self@, text@),
    {
        let chars = chars_of(text);
        let n = chars.len();
        if n == 0 || chars[0] != TRIGGER {
            return None;
        }
        let mut k: usize = 0;
        while k < n && !char_is_whitespace(chars[k])
            invariant
                n == chars@.len(),
                k <= n,
                chars@ == text@,
                forall|j: int| 0 <= j < k ==> !is_whitespace(#[trigger] text@[j]),
            decreases n - k,
        {
            k = k + 1;
        }
        proof {
            lemma_token_end_unique(text@, k as int);
        }
        let token = text.substring_char(0, k);
        match self.lookup(token) {
            None => None,
            Some(kind) => {
                let payload = if k < n {
                    String::from_str(text.substring_char(k + 1, n))
                } else {
                    String::new()
                };
                Some(kind.instantiate(payload))
            },
        }
    }
}

impl TwitchCommand {
    /// Recognises the command in the text of a chat message, if it is one.
    pub fn parse_msg(msg: &ChatMessage, table: &CommandTable) -> (command: Option<TwitchCommand>)
        ensures
            opt_command(command) == classify_spec(table@, msg@.message_text),
    {
        table.classify(msg.message_text.as_str())
    }
}

} // verus!

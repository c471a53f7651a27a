//! UI-facing application state: chat history, the active provider turn, the
//! input line editor and the slash-command parser.
use vstd::prelude::*;

use crate::clock::{instant_now, unix_timestamp_secs};
use crate::text::{
    concat3, has_prefix, owned, trim_str, u64_decimal,
    byte_len, char_width, chars_eq, chars_of, concat2, is_ws, join, lemma_byte_len_push,
    lemma_byte_len_take_mono, lemma_encode_len, lemma_word_len_bound, split_words, string_of,
    trim, trim_chars, views, join_words_from, word_len, words,
};

pub use crate::model::MessageRole;

verus! {

pub const LOCAL_COMMANDS_INLINE: &'static str = "/help, /login [browser|headless], /auth, /logout, /cancel, /quit";

pub const LOCAL_COMMANDS_INLINE_NO_QUIT: &'static str = "/help, /login [browser|headless], /auth, /logout, /cancel";

pub const LOGIN_COMMAND_USAGE: &'static str = "/login [browser|headless]";

pub const CANCEL_SHORTCUT_LABEL: &'static str = "Ctrl+X";

/// One entry of the chat history.
#[derive(Debug, Clone, PartialEq, Eq)]
pub struct ChatMessage {
    pub role: MessageRole,
    pub text: String,
    pub timestamp: u64,
}

impl ChatMessage {
    /// A message stamped with the current wall-clock time.
    pub fn new(role: MessageRole, text: String) -> (m: Self)
        ensures
            m.role == role,
            m.text == text,
    {
        ChatMessage { role, text, timestamp: unix_timestamp_secs() }
    }
}

/// A local slash command.
#[derive(Debug, Clone, Copy, PartialEq, Eq, Structural)]
pub enum LocalCommand {
    Help,
    Login(LoginCommandMode),
    Auth,
    Logout,
    Cancel,
    Quit,
}

/// How `/login` authenticates.
#[derive(Debug, Clone, Copy, PartialEq, Eq, Structural)]
pub enum LoginCommandMode {
    Browser,
    Headless,
}

/// Why a slash command was rejected.
#[derive(Debug, Clone, PartialEq, Eq)]
pub enum CommandParseError {
    UnknownCommand(String),
    UnexpectedArguments { command: &'static str, args: String },
}

/// The mathematical outcome of parsing a slash command.
pub enum CommandOutcome {
    Parsed(LocalCommand),
    Unknown(Seq<char>),
    Unexpected(Seq<char>, Seq<char>),
}

/// The outcome that a parse result stands for.
pub open spec fn outcome_of(r: Result<LocalCommand, CommandParseError>) -> CommandOutcome {
    match r {
        Ok(c) => CommandOutcome::Parsed(c),
        Err(CommandParseError::UnknownCommand(s)) => CommandOutcome::Unknown(s@),
        Err(CommandParseError::UnexpectedArguments { command, args }) => CommandOutcome::Unexpected(
            command@,
            args@,
        ),
    }
}

/// A command that takes no argument.
pub open spec fn no_arg_command(
    name: Seq<char>,
    args: Seq<char>,
    cmd: LocalCommand,
) -> CommandOutcome {
    if args.len() == 0 {
        CommandOutcome::Parsed(cmd)
    } else {
        CommandOutcome::Unexpected(name, args)
    }
}

/// What a command word and its space-joined arguments parse to.
pub open spec fn command_outcome(name: Seq<char>, args: Seq<char>) -> CommandOutcome {
    if name == "/help"@ {
        no_arg_command(name, args, LocalCommand::Help)
    } else if name == "/login"@ {
        if args.len() == 0 || args == "browser"@ {
            CommandOutcome::Parsed(LocalCommand::Login(LoginCommandMode::Browser))
        } else if args == "headless"@ {
            CommandOutcome::Parsed(LocalCommand::Login(LoginCommandMode::Headless))
        } else {
            CommandOutcome::Unexpected(name, args)
        }
    } else if name == "/auth"@ {
        no_arg_command(name, args, LocalCommand::Auth)
    } else if name == "/logout"@ {
        no_arg_command(name, args, LocalCommand::Logout)
    } else if name == "/cancel"@ {
        no_arg_command(name, args, LocalCommand::Cancel)
    } else if name == "/quit"@ {
        no_arg_command(name, args, LocalCommand::Quit)
    } else {
        CommandOutcome::Unknown(name)
    }
}

/// What a refused command is told: the text of its parse error.
pub open spec fn outcome_error_text(o: CommandOutcome) -> Seq<char> {
    match o {
        CommandOutcome::Unknown(c) => "Unknown command `"@ + c + "`. Try /help."@,
        CommandOutcome::Unexpected(command, args) => "Command `"@ + command
            + "` does not accept arguments: "@ + args,
        CommandOutcome::Parsed(_) => Seq::empty(),
    }
}

/// The commands that take no arguments refuse any: given arguments, each
/// is reported as an unexpected-arguments error naming the command and the
/// arguments; given none, it is that command.
pub proof fn law_no_argument_commands_refuse_arguments(args: Seq<char>)
    ensures
        args.len() > 0 ==> command_outcome("/help"@, args) == CommandOutcome::Unexpected("/help"@, args),
        args.len() == 0 ==> command_outcome("/help"@, args) == CommandOutcome::Parsed(LocalCommand::Help),
        args.len() > 0 ==> command_outcome("/auth"@, args) == CommandOutcome::Unexpected("/auth"@, args),
        args.len() == 0 ==> command_outcome("/auth"@, args) == CommandOutcome::Parsed(LocalCommand::Auth),
        args.len() > 0 ==> command_outcome("/logout"@, args) == CommandOutcome::Unexpected("/logout"@, args),
        args.len() == 0 ==> command_outcome("/logout"@, args) == CommandOutcome::Parsed(LocalCommand::Logout),
        args.len() > 0 ==> command_outcome("/cancel"@, args) == CommandOutcome::Unexpected("/cancel"@, args),
        args.len() == 0 ==> command_outcome("/cancel"@, args) == CommandOutcome::Parsed(LocalCommand::Cancel),
        args.len() > 0 ==> command_outcome("/quit"@, args) == CommandOutcome::Unexpected("/quit"@, args),
        args.len() == 0 ==> command_outcome("/quit"@, args) == CommandOutcome::Parsed(LocalCommand::Quit),
{
    lemma_command_names_distinct();
}

/// The command names differ from one another.
proof fn lemma_command_names_distinct()
    ensures
        "/help"@ != "/login"@,
        "/help"@ != "/auth"@,
        "/help"@ != "/logout"@,
        "/help"@ != "/cancel"@,
        "/help"@ != "/quit"@,
        "/login"@ != "/auth"@,
        "/login"@ != "/logout"@,
        "/login"@ != "/cancel"@,
        "/login"@ != "/quit"@,
        "/auth"@ != "/logout"@,
        "/auth"@ != "/cancel"@,
        "/auth"@ != "/quit"@,
        "/logout"@ != "/cancel"@,
        "/logout"@ != "/quit"@,
        "/cancel"@ != "/quit"@,
{
    reveal_strlit("/help");
    reveal_strlit("/login");
    reveal_strlit("/auth");
    reveal_strlit("/logout");
    reveal_strlit("/cancel");
    reveal_strlit("/quit");
    assert("/help"@[1] != "/auth"@[1]);
    assert("/help"@[1] != "/quit"@[1]);
    assert("/auth"@[1] != "/quit"@[1]);
    assert("/logout"@[1] != "/cancel"@[1]);
    assert("/login"@.len() != "/logout"@.len());
}

/// Input that is handled locally: its trimmed form starts with `/`.
pub open spec fn is_slash_input(input: Seq<char>) -> bool {
    trim(input).len() > 0 && trim(input)[0] == '/'
}

/// The command word of slash input.
pub open spec fn command_word(input: Seq<char>) -> Seq<char> {
    words(trim(input))[0]
}

/// The arguments of slash input: the remaining words joined by single spaces.
pub open spec fn command_args(input: Seq<char>) -> Seq<char> {
    join(words(trim(input)).skip(1), seq![' '])
}

fn words_match(w: &Vec<char>, lit: &str) -> (r: bool)
    ensures
        r == (w@ == lit@),
{
    let l = chars_of(lit);
    chars_eq(w, &l)
}

fn no_arg(
    name: &'static str,
    args: Vec<char>,
    cmd: LocalCommand,
) -> (r: Option<Result<LocalCommand, CommandParseError>>)
    ensures
        r is Some,
        outcome_of(r->0) == no_arg_command(name@, args@, cmd),
{
    if args.len() == 0 {
        Some(Ok(cmd))
    } else {
        Some(Err(CommandParseError::UnexpectedArguments { command: name, args: string_of(&args) }))
    }
}

/// Parses a local slash command.
///
/// Input whose trimmed form does not start with `/` is not a command (`None`).
/// Otherwise the first whitespace-separated word names the command and the
/// remaining words, joined by single spaces, are its arguments.
pub fn parse_local_command(input: &str) -> (r: Option<Result<LocalCommand, CommandParseError>>)
    ensures
        is_slash_input(input@) && command_word(input@) == "/help"@ ==> if command_args(input@).len() > 0 {
            r matches Some(Err(CommandParseError::UnexpectedArguments { command, args }))
                && command@ == "/help"@ && args@ == command_args(input@)
        } else {
            r == Some(Ok::<LocalCommand, CommandParseError>(LocalCommand::Help))
        },
        is_slash_input(input@) && command_word(input@) == "/auth"@ ==> if command_args(input@).len() > 0 {
            r matches Some(Err(CommandParseError::UnexpectedArguments { command, args }))
                && command@ == "/auth"@ && args@ == command_args(input@)
        } else {
            r == Some(Ok::<LocalCommand, CommandParseError>(LocalCommand::Auth))
        },
        is_slash_input(input@) && command_word(input@) == "/logout"@ ==> if command_args(input@).len() > 0 {
            r matches Some(Err(CommandParseError::UnexpectedArguments { command, args }))
                && command@ == "/logout"@ && args@ == command_args(input@)
        } else {
            r == Some(Ok::<LocalCommand, CommandParseError>(LocalCommand::Logout))
        },
        is_slash_input(input@) && command_word(input@) == "/cancel"@ ==> if command_args(input@).len() > 0 {
            r matches Some(Err(CommandParseError::UnexpectedArguments { command, args }))
                && command@ == "/cancel"@ && args@ == command_args(input@)
        } else {
            r == Some(Ok::<LocalCommand, CommandParseError>(LocalCommand::Cancel))
        },
        is_slash_input(input@) && command_word(input@) == "/quit"@ ==> if command_args(input@).len() > 0 {
            r matches Some(Err(CommandParseError::UnexpectedArguments { command, args }))
                && command@ == "/quit"@ && args@ == command_args(input@)
        } else {
            r == Some(Ok::<LocalCommand, CommandParseError>(LocalCommand::Quit))
        },
        r is None <==> !is_slash_input(input@),
        r is Some ==> outcome_of(r->0) == command_outcome(command_word(input@), command_args(input@)),
{
    proof {
        lemma_command_names_distinct();
    }
    let all = chars_of(input);
    let trimmed = trim_chars(&all);
    if trimmed.len() == 0 || trimmed[0] != '/' {
        return None;
    }
    let parts = split_words(&trimmed);
    proof {
        let t = trimmed@;
        assert(!is_ws(t[0]));
        lemma_word_len_bound(t);
        assert(words(t) == seq![t.take(word_len(t) as int)] + words(t.skip(word_len(t) as int)));
    }
    let name = &parts[0];
    let args = join_words_from(&parts, 1);
    proof {
        assert(parts@.skip(1).len() == words(trimmed@).skip(1).len());
        assert(views(parts@.skip(1)) =~= words(trimmed@).skip(1));
    }
    if words_match(name, "/help") {
        no_arg("/help", args, LocalCommand::Help)
    } else if words_match(name, "/login") {
        if args.len() == 0 || words_match(&args, "browser") {
            Some(Ok(LocalCommand::Login(LoginCommandMode::Browser)))
        } else if words_match(&args, "headless") {
            Some(Ok(LocalCommand::Login(LoginCommandMode::Headless)))
        } else {
            Some(
                Err(
                    CommandParseError::UnexpectedArguments {
                        command: "/login",
                        args: string_of(&args),
                    },
                ),
            )
        }
    } else if words_match(name, "/auth") {
        no_arg("/auth", args, LocalCommand::Auth)
    } else if words_match(name, "/logout") {
        no_arg("/logout", args, LocalCommand::Logout)
    } else if words_match(name, "/cancel") {
        no_arg("/cancel", args, LocalCommand::Cancel)
    } else if words_match(name, "/quit") {
        no_arg("/quit", args, LocalCommand::Quit)
    } else {
        Some(Err(CommandParseError::UnknownCommand(string_of(name))))
    }
}

impl CommandParseError {
    /// The user-facing description of the error (its `Display` text).
    pub fn message(&self) -> (r: String)
        ensures
            r@ == match self {
                CommandParseError::UnknownCommand(c) => "Unknown command `"@ + c@
                    + "`. Try /help."@,
                CommandParseError::UnexpectedArguments { command, args } => "Command `"@
                    + command@ + "` does not accept arguments: "@ + args@,
            },
    {
        match self {
            CommandParseError::UnknownCommand(c) => {
                let mut r = concat2("Unknown command `", c.as_str());
                r.append("`. Try /help.");
                r
            },
            CommandParseError::UnexpectedArguments { command, args } => {
                let mut r = concat2("Command `", command);
                r.append("` does not accept arguments: ");
                r.append(args.as_str());
                r
            },
        }
    }
}

/// The editing mode of the input line.
#[derive(Debug, Clone, Copy, PartialEq, Eq, Structural)]
pub enum InputMode {
    Editing,
}

/// Lifecycle of the provider turn shown in the UI.
#[derive(Debug, Clone, Copy, PartialEq, Eq, Structural)]
pub enum TurnState {
    Idle,
    Streaming,
    Cancelling,
    Cancelled,
}

impl TurnState {
    pub open spec fn spec_label(self) -> Seq<char> {
        match self {
            TurnState::Idle => "idle"@,
            TurnState::Streaming => "streaming"@,
            TurnState::Cancelling => "cancelling"@,
            TurnState::Cancelled => "cancelled"@,
        }
    }

    pub fn label(&self) -> (r: &'static str)
        ensures
            r@ == self.spec_label(),
    {
        match self {
            TurnState::Idle => "idle",
            TurnState::Streaming => "streaming",
            TurnState::Cancelling => "cancelling",
            TurnState::Cancelled => "cancelled",
        }
    }

    /// A turn is active while it streams or while its cancellation is pending.
    pub open spec fn is_active_spec(self) -> bool {
        self == TurnState::Streaming || self == TurnState::Cancelling
    }

    pub fn is_active(&self) -> (r: bool)
        ensures
            r == self.is_active_spec(),
    {
        match self {
            TurnState::Streaming | TurnState::Cancelling => true,
            _ => false,
        }
    }
}

// ---------------------------------------------------------------------------
// Input line editor
// ---------------------------------------------------------------------------

/// `cursor` is a byte offset that falls on a character boundary of `s`.
pub open spec fn on_boundary(s: Seq<char>, cursor: int) -> bool {
    exists|k: int| 0 <= k <= s.len() && byte_len(s.take(k)) == cursor
}

/// The character index of the byte offset `cursor`.
pub open spec fn char_index(s: Seq<char>, cursor: int) -> int {
    choose|k: int| 0 <= k <= s.len() && byte_len(s.take(k)) == cursor
}

proof fn lemma_char_index(s: Seq<char>, cursor: int, k: int)
    requires
        0 <= k <= s.len(),
        byte_len(s.take(k)) == cursor,
    ensures
        on_boundary(s, cursor),
        char_index(s, cursor) == k,
{
    let j = char_index(s, cursor);
    assert(0 <= j <= s.len() && byte_len(s.take(j)) == cursor);
    if j < k {
        lemma_byte_len_take_mono(s, j, k);
    } else if k < j {
        lemma_byte_len_take_mono(s, k, j);
    }
}

/// A string's UTF-8 length fits in `usize` (it is what `str::len` returns).
fn measure_text(s: &String)
    ensures
        byte_len(s@) <= usize::MAX,
{
    let bytes = s.as_str().as_bytes();
    let n = bytes.len();
    proof {
        lemma_encode_len(s@);
        assert(n == vstd::utf8::encode_utf8(s@).len());
    }
}

fn width(c: char) -> (w: usize)
    ensures
        w == char_width(c),
{
    let u = c as u32;
    if u < 0x80 {
        1
    } else if u < 0x800 {
        2
    } else if u < 0x10000 {
        3
    } else {
        4
    }
}

/// Finds the character index of a byte offset on a character boundary.
fn locate(v: &Vec<char>, cursor: usize) -> (k: usize)
    requires
        on_boundary(v@, cursor as int),
    ensures
        k == char_index(v@, cursor as int),
        k <= v@.len(),
{
    let ghost target = char_index(v@, cursor as int);
    let mut k: usize = 0;
    let mut acc: usize = 0;
    assert(v@.take(0) =~= Seq::<char>::empty());
    while acc < cursor
        invariant
            0 <= target <= v@.len(),
            byte_len(v@.take(target)) == cursor,
            k <= target,
            acc == byte_len(v@.take(k as int)),
            acc <= cursor,
        decreases target - k,
    {
        proof {
            if k == target {
                assert(false);
            }
            lemma_byte_len_take_mono(v@, k + 1, target);
            assert(v@.take(k + 1).drop_last() =~= v@.take(k as int));
        }
        assert(k < v.len());
        acc = acc + width(v[k]);
        k = k + 1;
    }
    proof {
        if k < target {
            lemma_byte_len_take_mono(v@, k as int, target);
        }
        lemma_char_index(v@, cursor as int, k as int);
    }
    k
}

fn prefix_bytes(v: &Vec<char>, k: usize) -> (b: usize)
    requires
        k <= v@.len(),
        byte_len(v@) <= usize::MAX,
    ensures
        b == byte_len(v@.take(k as int)),
{
    let mut i: usize = 0;
    let mut acc: usize = 0;
    assert(v@.take(0) =~= Seq::<char>::empty());
    while i < k
        invariant
            i <= k <= v@.len(),
            byte_len(v@) <= usize::MAX,
            acc == byte_len(v@.take(i as int)),
        decreases k - i,
    {
        proof {
            lemma_byte_len_take_mono(v@, i + 1, v@.len() as int);
            assert(v@.take(v@.len() as int) =~= v@);
            assert(v@.take(i + 1).drop_last() =~= v@.take(i as int));
        }
        acc = acc + width(v[i]);
        i = i + 1;
    }
    acc
}

/// `a` followed by `b`, as a new vector.
fn splice(v: &Vec<char>, from: usize, to: usize, middle: Option<char>) -> (r: Vec<char>)
    requires
        from <= to <= v@.len(),
    ensures
        r@ == match middle {
            Some(c) => v@.take(from as int).push(c) + v@.skip(to as int),
            None => v@.take(from as int) + v@.skip(to as int),
        },
{
    let mut r: Vec<char> = Vec::new();
    let mut i: usize = 0;
    while i < from
        invariant
            i <= from <= to <= v@.len(),
            r@ == v@.take(i as int),
        decreases from - i,
    {
        r.push(v[i]);
        i = i + 1;
        assert(r@ =~= v@.take(i as int));
    }
    let ghost head = r@;
    match middle {
        Some(c) => r.push(c),
        None => {},
    }
    let ghost mid = r@;
    let mut j: usize = to;
    while j < v.len()
        invariant
            to <= j <= v@.len(),
            r@ == mid + v@.subrange(to as int, j as int),
        decreases v@.len() - j,
    {
        r.push(v[j]);
        j = j + 1;
        assert(r@ =~= mid + v@.subrange(to as int, j as int));
    }
    assert(v@.subrange(to as int, v@.len() as int) =~= v@.skip(to as int));
    r
}

/// `s` with `c` inserted before the character at index `k`.
pub open spec fn insert_at(s: Seq<char>, k: int, c: char) -> Seq<char> {
    s.take(k).push(c) + s.skip(k)
}

/// `s` without the character at index `k`.
pub open spec fn remove_at(s: Seq<char>, k: int) -> Seq<char> {
    s.take(k) + s.skip(k + 1)
}

/// Backspace right after inserting a character gives back the text and the
/// cursor: the character inserted at the cursor is the one before the new
/// cursor, and removing it restores both.
pub proof fn law_backspace_undoes_insert(text: Seq<char>, k: int, c: char)
    requires
        0 <= k <= text.len(),
    ensures
        remove_at(insert_at(text, k, c), k) == text,
        byte_len(insert_at(text, k, c).take(k)) == byte_len(text.take(k)),
        byte_len(insert_at(text, k, c).take(k + 1)) == byte_len(text.take(k)) + char_width(c),
{
    let t1 = insert_at(text, k, c);
    assert(t1.take(k) =~= text.take(k));
    assert(t1.skip(k + 1) =~= text.skip(k));
    assert(remove_at(t1, k) =~= text);
    assert(t1.take(k + 1) =~= text.take(k).push(c));
    lemma_byte_len_push(text.take(k), c);
}

/// The text of the input line and a byte cursor into it.
#[derive(Debug, Clone, PartialEq, Eq)]
pub struct InputState {
    pub text: String,
    pub cursor: usize,
}

impl Default for InputState {
    fn default() -> (r: Self)
        ensures
            r.text@ == Seq::<char>::empty(),
            r.cursor == 0,
    {
        InputState { text: String::new(), cursor: 0 }
    }
}

impl InputState {
    /// The cursor lies on a character boundary of the text (the methods that
    /// slice the text at the cursor panic otherwise).
    pub open spec fn well_formed(&self) -> bool {
        &&& on_boundary(self.text@, self.cursor as int)
        &&& byte_len(self.text@) <= usize::MAX
    }

    /// The character index of the cursor.
    pub open spec fn cursor_char(&self) -> int {
        char_index(self.text@, self.cursor as int)
    }

    /// The number of characters before the cursor.
    pub fn cursor_chars(&self) -> (r: usize)
        requires
            self.well_formed(),
        ensures
            r == self.cursor_char(),
    {
        let v = chars_of(self.text.as_str());
        locate(&v, self.cursor)
    }

    /// Inserts `character` at the cursor and moves the cursor past it.
    pub fn insert_char(&mut self, character: char)
        requires
            old(self).well_formed(),
        ensures
            final(self).text@ == insert_at(old(self).text@, old(self).cursor_char(), character),
            final(self).cursor == old(self).cursor + char_width(character),
            final(self).cursor_char() == old(self).cursor_char() + 1,
            on_boundary(final(self).text@, final(self).cursor as int),
            final(self).well_formed(),
    {
        let v = chars_of(self.text.as_str());
        let k = locate(&v, self.cursor);
        let nv = splice(&v, k, k, Some(character));
        proof {
            assert(byte_len(v@.take(k as int)) == self.cursor);
            assert(v@.take(v@.len() as int) =~= v@);
            assert(nv@.take(k + 1) =~= v@.take(k as int).push(character));
            lemma_byte_len_push(v@.take(k as int), character);
            lemma_char_index(nv@, self.cursor + char_width(character), k + 1);
            lemma_byte_len_take_mono(nv@, k + 1, nv@.len() as int);
            assert(nv@.take(nv@.len() as int) =~= nv@);
        }
        self.text = string_of(&nv);
        measure_text(&self.text);
        self.cursor = self.cursor + width(character);
    }

    /// Removes the character before the cursor; `false` when the cursor is at
    /// the start.
    pub fn backspace(&mut self) -> (r: bool)
        requires
            old(self).well_formed(),
        ensures
            r == (old(self).cursor != 0),
            !r ==> *final(self) == *old(self),
            r ==> final(self).text@ == remove_at(old(self).text@, old(self).cursor_char() - 1),
            on_boundary(final(self).text@, final(self).cursor as int),
            r ==> final(self).cursor == byte_len(old(self).text@.take(old(self).cursor_char() - 1)),
            r ==> final(self).cursor_char() == old(self).cursor_char() - 1,
            final(self).well_formed(),
    {
        if self.cursor == 0 {
            return false;
        }
        let v = chars_of(self.text.as_str());
        let k = locate(&v, self.cursor);
        proof {
            assert(v@.take(0) =~= Seq::<char>::empty());
            if k == 0 {
                assert(byte_len(v@.take(0)) == 0);
            }
            lemma_byte_len_take_mono(v@, k as int, v@.len() as int);
            assert(v@.take(v@.len() as int) =~= v@);
        }
        let nv = splice(&v, k - 1, k, None);
        let b = prefix_bytes(&v, k - 1);
        proof {
            assert(nv@.take(k - 1) =~= v@.take(k - 1));
            lemma_char_index(nv@, b as int, k - 1);
        }
        self.text = string_of(&nv);
        measure_text(&self.text);
        self.cursor = b;
        true
    }

    /// Removes the character at the cursor; `false` when the cursor is at the end.
    pub fn delete(&mut self) -> (r: bool)
        requires
            old(self).well_formed(),
        ensures
            r == (old(self).cursor < byte_len(old(self).text@)),
            r == (old(self).cursor_char() < old(self).text@.len()),
            !r ==> *final(self) == *old(self),
            r ==> final(self).text@ == remove_at(old(self).text@, old(self).cursor_char()),
            on_boundary(final(self).text@, final(self).cursor as int),
            r ==> final(self).cursor == old(self).cursor,
            r ==> final(self).cursor_char() == old(self).cursor_char(),
            final(self).well_formed(),
    {
        let v = chars_of(self.text.as_str());
        let k = locate(&v, self.cursor);
        proof {
            assert(v@.take(v@.len() as int) =~= v@);
            if k < v@.len() {
                lemma_byte_len_take_mono(v@, k as int, v@.len() as int);
            }
        }
        if k >= v.len() {
            return false;
        }
        let nv = splice(&v, k, k + 1, None);
        proof {
            assert(nv@.take(k as int) =~= v@.take(k as int));
            lemma_char_index(nv@, self.cursor as int, k as int);
        }
        self.text = string_of(&nv);
        measure_text(&self.text);
        true
    }

    /// Moves the cursor one character left; `false` at the start.
    pub fn move_left(&mut self) -> (r: bool)
        requires
            old(self).well_formed(),
        ensures
            r == (old(self).cursor != 0),
            final(self).text == old(self).text,
            !r ==> final(self).cursor == old(self).cursor,
            r ==> final(self).cursor == byte_len(old(self).text@.take(old(self).cursor_char() - 1)),
            r ==> final(self).cursor_char() == old(self).cursor_char() - 1,
            on_boundary(final(self).text@, final(self).cursor as int),
            final(self).well_formed(),
    {
        if self.cursor == 0 {
            return false;
        }
        let v = chars_of(self.text.as_str());
        let k = locate(&v, self.cursor);
        proof {
            assert(v@.take(0) =~= Seq::<char>::empty());
            if k == 0 {
                assert(byte_len(v@.take(0)) == 0);
            }
            lemma_byte_len_take_mono(v@, k as int, v@.len() as int);
            assert(v@.take(v@.len() as int) =~= v@);
        }
        let b = prefix_bytes(&v, k - 1);
        proof {
            lemma_char_index(v@, b as int, k - 1);
        }
        self.cursor = b;
        true
    }

    /// Moves the cursor one character right; `false` at the end.
    pub fn move_right(&mut self) -> (r: bool)
        requires
            old(self).well_formed(),
        ensures
            r == (old(self).cursor < byte_len(old(self).text@)),
            final(self).text == old(self).text,
            !r ==> final(self).cursor == old(self).cursor,
            r ==> final(self).cursor == old(self).cursor + char_width(
                old(self).text@[old(self).cursor_char()],
            ),
            r ==> final(self).cursor_char() == old(self).cursor_char() + 1,
            on_boundary(final(self).text@, final(self).cursor as int),
            final(self).well_formed(),
    {
        let v = chars_of(self.text.as_str());
        let k = locate(&v, self.cursor);
        proof {
            assert(v@.take(v@.len() as int) =~= v@);
            if k < v@.len() {
                lemma_byte_len_take_mono(v@, k as int, v@.len() as int);
            }
        }
        if k >= v.len() {
            return false;
        }
        proof {
            assert(v@.take(k + 1).drop_last() =~= v@.take(k as int));
            lemma_byte_len_take_mono(v@, k + 1, v@.len() as int);
            lemma_char_index(v@, self.cursor + char_width(v@[k as int]), k + 1);
        }
        self.cursor = self.cursor + width(v[k]);
        true
    }

    /// Moves the cursor to the start of the text.
    pub fn move_home(&mut self)
        ensures
            final(self).text == old(self).text,
            final(self).cursor == 0,
            final(self).cursor_char() == 0,
            on_boundary(final(self).text@, 0),
            final(self).well_formed(),
    {
        measure_text(&self.text);
        self.cursor = 0;
        proof {
            assert(self.text@.take(0) =~= Seq::<char>::empty());
            lemma_char_index(self.text@, 0, 0);
        }
    }

    /// Moves the cursor to the end of the text.
    pub fn move_end(&mut self)
        requires
            byte_len(old(self).text@) <= usize::MAX,
        ensures
            final(self).text == old(self).text,
            final(self).cursor == byte_len(old(self).text@),
            final(self).cursor_char() == old(self).text@.len(),
            on_boundary(final(self).text@, final(self).cursor as int),
            final(self).well_formed(),
    {
        proof {
            lemma_encode_len(self.text@);
        }
        self.cursor = self.text.as_str().len();
        proof {
            assert(self.text@.take(self.text@.len() as int) =~= self.text@);
            lemma_char_index(self.text@, self.cursor as int, self.text@.len() as int);
        }
    }

    /// Returns the text and leaves the input empty.
    pub fn take_text(&mut self) -> (r: String)
        ensures
            r == old(self).text,
            final(self).text@ == Seq::<char>::empty(),
            final(self).cursor == 0,
            final(self).well_formed(),
    {
        self.cursor = 0;
        let mut out = String::new();
        std::mem::swap(&mut out, &mut self.text);
        proof {
            assert(self.text@.take(0) =~= Seq::<char>::empty());
            lemma_char_index(self.text@, 0, 0);
        }
        out
    }
}

// ---------------------------------------------------------------------------
// Application state
// ---------------------------------------------------------------------------

/// Everything the UI renders and the controller mutates.
#[derive(Debug)]
pub struct AppState {
    pub running: bool,
    pub status_line: String,
    pub model: String,
    pub variant: String,
    pub session_id: String,
    pub session_state: String,
    pub input_mode: InputMode,
    pub input: InputState,
    pub turn_state: TurnState,
    pub active_turn_id: Option<String>,
    pub active_assistant_message_index: Option<usize>,
    pub messages: Vec<ChatMessage>,
    pub last_tick: std::time::Instant,
}

/// The roles and texts of a message history.
pub open spec fn history(messages: Seq<ChatMessage>) -> Seq<(MessageRole, Seq<char>)> {
    Seq::new(messages.len(), |i: int| (messages[i].role, messages[i].text@))
}

/// A message that `drop_empty_active_assistant_message` removes: an
/// assistant message whose text is blank.
pub open spec fn is_blank_assistant(m: ChatMessage) -> bool {
    m.role == MessageRole::Assistant && trim(m.text@).len() == 0
}

/// `messages` after dropping a trailing blank assistant message.
pub open spec fn without_blank_tail(messages: Seq<ChatMessage>) -> Seq<ChatMessage> {
    if messages.len() > 0 && is_blank_assistant(messages.last()) {
        messages.drop_last()
    } else {
        messages
    }
}

/// Ending a turn drops only an empty reply: the last message goes exactly
/// when it is an assistant message whose text is blank after trimming; a
/// reply with text, or a last message of another role, stays.
pub proof fn law_only_blank_replies_are_dropped(messages: Seq<ChatMessage>)
    ensures
        messages.len() > 0 && messages.last().role == MessageRole::Assistant && trim(
            messages.last().text@,
        ).len() == 0 ==> without_blank_tail(messages) == messages.drop_last(),
        messages.len() > 0 && trim(messages.last().text@).len() > 0 ==> without_blank_tail(
            messages,
        ) == messages,
        messages.len() > 0 && messages.last().role != MessageRole::Assistant ==> without_blank_tail(
            messages,
        ) == messages,
        messages.len() == 0 ==> without_blank_tail(messages) == messages,
{
}

impl Default for AppState {
    fn default() -> (r: Self)
        ensures
            r.running,
            r.status_line@ == "Provider mode active. Enter sends. Commands: "@
                + LOCAL_COMMANDS_INLINE@ + "."@,
            r.model@ == "openai/gpt-5.3-codex"@,
            r.variant@ == "medium"@,
            has_prefix(r.session_id@, "session-"@),
            r.session_state@ == "new"@,
            r.input.text@ == Seq::<char>::empty(),
            r.input.cursor == 0,
            r.turn_state == TurnState::Idle,
            r.active_turn_id is None,
            r.active_assistant_message_index is None,
            history(r.messages@) == seq![
                (MessageRole::System, "Phase 4 streaming architecture is active. Use /auth to inspect session status; run /login only when signed out."@),
                (MessageRole::Assistant, "Try typing a prompt, then press Enter. Use /cancel to stop an active stream."@),
            ],
    {
        let mut status_line = concat3(
            "Provider mode active. Enter sends. Commands: ",
            LOCAL_COMMANDS_INLINE,
            ".",
        );
        let stamp = u64_decimal(unix_timestamp_secs());
        let session_id = concat2("session-", stamp.as_str());
        proof {
            assert(session_id@.take("session-"@.len() as int) =~= "session-"@);
        }
        let mut messages: Vec<ChatMessage> = Vec::new();
        messages.push(
            ChatMessage::new(
                MessageRole::System,
                owned(
                    "Phase 4 streaming architecture is active. Use /auth to inspect session status; run /login only when signed out.",
                ),
            ),
        );
        messages.push(
            ChatMessage::new(
                MessageRole::Assistant,
                owned(
                    "Try typing a prompt, then press Enter. Use /cancel to stop an active stream.",
                ),
            ),
        );
        assert(history(messages@) =~= seq![
            (MessageRole::System, "Phase 4 streaming architecture is active. Use /auth to inspect session status; run /login only when signed out."@),
            (MessageRole::Assistant, "Try typing a prompt, then press Enter. Use /cancel to stop an active stream."@),
        ]);
        AppState {
            running: true,
            status_line,
            model: owned("openai/gpt-5.3-codex"),
            variant: owned("medium"),
            session_id,
            session_state: owned("new"),
            input_mode: InputMode::Editing,
            input: InputState::default(),
            turn_state: TurnState::Idle,
            active_turn_id: None,
            active_assistant_message_index: None,
            messages,
            last_tick: instant_now(),
        }
    }
}

impl AppState {
    /// Stops the main loop.
    pub fn request_quit(&mut self)
        ensures
            !final(self).running,
            final(self).status_line@ == "Shutting down..."@,
            *final(self) == (AppState {
                running: false,
                status_line: final(self).status_line,
                ..*old(self)
            }),
            final(self).messages == old(self).messages,
            final(self).turn_state == old(self).turn_state,
            final(self).active_turn_id == old(self).active_turn_id,
            final(self).input == old(self).input,
    {
        self.running = false;
        self.status_line = owned("Shutting down...");
    }

    pub fn set_status(&mut self, status: String)
        ensures
            *final(self) == (AppState { status_line: status, ..*old(self) }),
    {
        self.status_line = status;
    }

    pub fn set_model_and_variant(&mut self, model: String, variant: String)
        ensures
            *final(self) == (AppState { model, variant, ..*old(self) }),
    {
        self.model = model;
        self.variant = variant;
    }

    pub fn set_session_id(&mut self, session_id: String)
        ensures
            *final(self) == (AppState { session_id, ..*old(self) }),
    {
        self.session_id = session_id;
    }

    /// Appends a message, stamped with the current time.
    pub fn push_message(&mut self, role: MessageRole, text: String)
        ensures
            final(self).messages@.len() == old(self).messages@.len() + 1,
            final(self).messages@.drop_last() == old(self).messages@,
            final(self).messages@.last().role == role,
            final(self).messages@.last().text == text,
            *final(self) == (AppState { messages: final(self).messages, ..*old(self) }),
    {
        self.messages.push(ChatMessage::new(role, text));
        assert(self.messages@.drop_last() =~= old(self).messages@);
    }

    /// Starts streaming a turn: an empty assistant message is appended and
    /// becomes the target of incoming deltas.
    pub fn begin_streaming_turn(&mut self, turn_id: String)
        ensures
            final(self).turn_state == TurnState::Streaming,
            final(self).active_turn_id == Some(turn_id),
            final(self).messages@.len() == old(self).messages@.len() + 1,
            final(self).messages@.drop_last() == old(self).messages@,
            final(self).messages@.last().role == MessageRole::Assistant,
            final(self).messages@.last().text@ == Seq::<char>::empty(),
            final(self).active_assistant_message_index == Some(
                (final(self).messages@.len() - 1) as usize,
            ),
            final(self).status_line == old(self).status_line,
            final(self).running == old(self).running,
            final(self).input == old(self).input,
    {
        self.turn_state = TurnState::Streaming;
        self.active_turn_id = Some(turn_id);
        self.messages.push(ChatMessage::new(MessageRole::Assistant, String::new()));
        assert(self.messages@.drop_last() =~= old(self).messages@);
        self.active_assistant_message_index = Some(self.messages.len() - 1);
    }

    pub fn has_active_turn(&self) -> (r: bool)
        ensures
            r == self.active_turn_id is Some,
    {
        self.active_turn_id.is_some()
    }

    /// Appends streamed text to the active assistant message; `false` when
    /// there is none.
    pub fn append_assistant_delta(&mut self, delta: &str) -> (r: bool)
        ensures
            r == (old(self).active_assistant_message_index matches Some(i) && i
                < old(self).messages@.len()),
            !r ==> *final(self) == *old(self),
            r ==> {
                let i = old(self).active_assistant_message_index->0 as int;
                &&& final(self).messages@.len() == old(self).messages@.len()
                &&& forall|j: int|
                    0 <= j < old(self).messages@.len() && j != i ==> final(self).messages@[j]
                        == old(self).messages@[j]
                &&& final(self).messages@[i].text@ == old(self).messages@[i].text@ + delta@
                &&& final(self).messages@[i].role == old(self).messages@[i].role
                &&& final(self).messages@[i].timestamp == old(self).messages@[i].timestamp
                &&& *final(self) == (AppState { messages: final(self).messages, ..*old(self) })
            },
    {
        let message_index = match self.active_assistant_message_index {
            Some(i) => i,
            None => {
                return false;
            },
        };
        if message_index >= self.messages.len() {
            return false;
        }
        let mut text = concat2(self.messages[message_index].text.as_str(), delta);
        let role = self.messages[message_index].role;
        let timestamp = self.messages[message_index].timestamp;
        self.messages.set(message_index, ChatMessage { role, text, timestamp });
        true
    }

    /// Marks the active turn as cancelling; `false` when no turn is active.
    pub fn mark_turn_cancelling(&mut self) -> (r: bool)
        ensures
            r == old(self).active_turn_id is Some,
            r ==> *final(self) == (AppState { turn_state: TurnState::Cancelling, ..*old(self) }),
            !r ==> *final(self) == *old(self),
    {
        if !self.has_active_turn() {
            return false;
        }
        self.turn_state = TurnState::Cancelling;
        true
    }

    /// Finishes the active turn; returns its id.
    pub fn complete_active_turn(&mut self) -> (r: Option<String>)
        ensures
            r == old(self).active_turn_id,
            *final(self) == (AppState {
                active_turn_id: None,
                active_assistant_message_index: None,
                turn_state: TurnState::Idle,
                ..*old(self)
            }),
    {
        let turn_id = self.active_turn_id.take();
        self.active_assistant_message_index = None;
        self.turn_state = TurnState::Idle;
        turn_id
    }

    /// Ends the active turn as cancelled, dropping its assistant message when
    /// it received no text; returns the turn id.
    pub fn cancel_active_turn(&mut self) -> (r: Option<String>)
        ensures
            old(self).messages@.len() > 0 && trim(old(self).messages@.last().text@).len() > 0
                ==> final(self).messages@ == old(self).messages@,
            old(self).messages@.len() > 0 && old(self).messages@.last().role
                != MessageRole::Assistant ==> final(self).messages@ == old(self).messages@,
            r == old(self).active_turn_id,
            final(self).messages@ == without_blank_tail(old(self).messages@),
            *final(self) == (AppState {
                active_turn_id: None,
                active_assistant_message_index: None,
                turn_state: TurnState::Cancelled,
                messages: final(self).messages,
                ..*old(self)
            }),
    {
        let turn_id = self.active_turn_id.take();
        self.active_assistant_message_index = None;
        self.turn_state = TurnState::Cancelled;
        self.drop_empty_active_assistant_message();
        turn_id
    }

    /// Ends the active turn after a failure, dropping its assistant message
    /// when it received no text; returns the turn id.
    pub fn fail_active_turn(&mut self) -> (r: Option<String>)
        ensures
            old(self).messages@.len() > 0 && trim(old(self).messages@.last().text@).len() > 0
                ==> final(self).messages@ == old(self).messages@,
            old(self).messages@.len() > 0 && old(self).messages@.last().role
                != MessageRole::Assistant ==> final(self).messages@ == old(self).messages@,
            r == old(self).active_turn_id,
            final(self).messages@ == without_blank_tail(old(self).messages@),
            *final(self) == (AppState {
                active_turn_id: None,
                active_assistant_message_index: None,
                turn_state: TurnState::Idle,
                messages: final(self).messages,
                ..*old(self)
            }),
    {
        let turn_id = self.active_turn_id.take();
        self.active_assistant_message_index = None;
        self.turn_state = TurnState::Idle;
        self.drop_empty_active_assistant_message();
        turn_id
    }

    /// Removes the last message when it is a blank assistant message.
    pub fn drop_empty_active_assistant_message(&mut self)
        ensures
            final(self).messages@ == without_blank_tail(old(self).messages@),
            *final(self) == (AppState { messages: final(self).messages, ..*old(self) }),
            old(self).messages@.len() > 0 && old(self).messages@.last().role == MessageRole::Assistant
                && trim(old(self).messages@.last().text@).len() == 0 ==> final(self).messages@
                == old(self).messages@.drop_last(),
            old(self).messages@.len() > 0 && trim(old(self).messages@.last().text@).len() > 0
                ==> final(self).messages@ == old(self).messages@,
            old(self).messages@.len() > 0 && old(self).messages@.last().role
                != MessageRole::Assistant ==> final(self).messages@ == old(self).messages@,
    {
        let n = self.messages.len();
        if n == 0 {
            return;
        }
        let is_assistant = self.messages[n - 1].role == MessageRole::Assistant;
        if is_assistant {
            let t = trim_str(self.messages[n - 1].text.as_str());
            if t.as_str().is_empty() {
                self.messages.pop();
                assert(self.messages@ =~= old(self).messages@.drop_last());
            }
        }
    }

    /// Records that the UI ticked now.
    pub fn touch_tick(&mut self)
        ensures
            *final(self) == (AppState { last_tick: final(self).last_tick, ..*old(self) }),
    {
        self.last_tick = instant_now();
    }
}

} // verus!

//! The controller: applies events to the application state and says which
//! outside work (starting or cancelling a provider stream, reading the
//! environment for logout) the event loop has to carry out.
use vstd::prelude::*;

use crate::app::event::{AppEvent, KeyCode, KeyEvent};
use crate::app::state::{
    history, parse_local_command, AppState, ChatMessage, CommandParseError, InputMode,
    LocalCommand, LoginCommandMode, MessageRole, TurnState, CANCEL_SHORTCUT_LABEL,
    LOCAL_COMMANDS_INLINE_NO_QUIT, LOGIN_COMMAND_USAGE, outcome_of, command_outcome,
    command_word, command_args, is_slash_input, outcome_error_text, on_boundary, remove_at,
};
use crate::auth::provider::{AuthLoginMethod, AuthProvider, AuthStatus};
use crate::auth::token_store::{InMemoryTokenStore, TokenStore};
use crate::auth::{AuthRuntime, MockAuthProvider};
use crate::clock::unix_timestamp_secs;
use crate::model::{Message, ProviderEvent};
use crate::providers::openai_responses::OpenAiResponsesProvider;
use crate::providers::provider::{ProviderAuthContext, ProviderTurnRequest};
use crate::storage::config::AppConfig;
use crate::text::{
    byte_len, chars_eq, chars_of, concat2, concat3, decimal, has_prefix, lower, lower_chars, owned, trim,
    trim_chars, trim_str, u64_decimal,
};

verus! {

/// Outside work that an event asks the event loop to carry out.
#[derive(Debug, Clone, PartialEq, Eq)]
pub enum ControllerEffect {
    /// Nothing to do.
    Nothing,
    /// Start a provider turn with this request, then report the outcome
    /// with `provider_turn_started` or `provider_turn_failed`.
    StartTurn(ProviderTurnRequest),
    /// Set the cancellation flag of the active provider turn.
    CancelTurn,
    /// Read the API key from the environment and call `complete_logout`.
    Logout,
}

/// The help text of the local commands.
pub open spec fn spec_help_message() -> Seq<char> {
    "Local commands:\n/help - show this help\n"@ + LOGIN_COMMAND_USAGE@
        + " - start OAuth login\n/auth - show auth status\n/logout - clear persisted OAuth session\n/cancel - cancel the active provider turn\n/quit - exit the app\nShortcut: "@
        + CANCEL_SHORTCUT_LABEL@ + " also cancels an active turn."@
}

/// The help text of the local commands.
pub fn local_help_message() -> (r: String)
    ensures
        r@ == spec_help_message(),
{
    let mut r = concat3("Local commands:\n/help - show this help\n", LOGIN_COMMAND_USAGE, " - start OAuth login\n/auth - show auth status\n/logout - clear persisted OAuth session\n/cancel - cancel the active provider turn\n/quit - exit the app\nShortcut: ");
    r.append(CANCEL_SHORTCUT_LABEL);
    r.append(" also cancels an active turn.");
    r
}

/// The provider a configuration selects. Every name selects the OpenAI
/// Responses provider (unknown names fall back to it).
pub fn build_provider(config: &AppConfig) -> (r: OpenAiResponsesProvider)
    ensures
        r.spec_base_url() == config.openai.base_url@,
{
    let name = lower_chars(&trim_chars(&chars_of(config.provider.as_str())));
    if chars_eq(&name, &chars_of("openai")) || chars_eq(&name, &chars_of("openai-responses")) {
        OpenAiResponsesProvider::new(config.openai.base_url.clone())
    } else {
        OpenAiResponsesProvider::new(config.openai.base_url.clone())
    }
}

/// The endpoint shown at startup: a `mock://` base URL as it is, otherwise
/// the Codex responses endpoint.
pub open spec fn spec_endpoint(base_url: Seq<char>) -> Seq<char> {
    if has_prefix(base_url, "mock://"@) {
        base_url
    } else {
        "https://chatgpt.com/backend-api/codex/responses"@
    }
}

fn starts_with_mock(s: &str) -> (r: bool)
    ensures
        r == has_prefix(s@, "mock://"@),
{
    let v = chars_of(s);
    let p = chars_of("mock://");
    if v.len() < p.len() {
        return false;
    }
    let mut i: usize = 0;
    while i < p.len()
        invariant
            p.len() <= v.len(),
            i <= p.len(),
            p@ == "mock://"@,
            v@ == s@,
            forall|k: int| 0 <= k < i ==> v@[k] == p@[k],
        decreases p.len() - i,
    {
        if v[i] != p[i] {
            assert(v@.take(p@.len() as int)[i as int] != p@[i as int]);
            return false;
        }
        i = i + 1;
    }
    assert(v@.take(p@.len() as int) =~= p@);
    true
}

/// The messages sent to the provider: every non-system message, numbered
/// among them.
pub open spec fn spec_provider_messages(
    session_id: Seq<char>,
    messages: Seq<ChatMessage>,
) -> Seq<(Seq<char>, MessageRole, Seq<char>, u64)>
    decreases messages.len(),
{
    if messages.len() == 0 {
        seq![]
    } else {
        let prev = spec_provider_messages(session_id, messages.drop_last());
        let m = messages.last();
        if m.role == MessageRole::System {
            prev
        } else {
            prev.push(
                (session_id + "-"@ + decimal(prev.len()), m.role, m.text@, m.timestamp),
            )
        }
    }
}

/// The chat's messages other than system messages, in order.
pub open spec fn non_system(messages: Seq<ChatMessage>) -> Seq<ChatMessage> {
    messages.filter(|m: ChatMessage| m.role != MessageRole::System)
}

/// The provider request carries exactly the chat's non-system messages, in
/// their order, numbered among themselves.
pub proof fn law_provider_messages_skip_system(session_id: Seq<char>, messages: Seq<ChatMessage>)
    ensures
        spec_provider_messages(session_id, messages).len() == non_system(messages).len(),
        forall|i: int|
            0 <= i < non_system(messages).len() ==> {
                let p = #[trigger] spec_provider_messages(session_id, messages)[i];
                &&& p.0 == session_id + "-"@ + decimal(i as nat)
                &&& p.1 == non_system(messages)[i].role
                &&& p.1 != MessageRole::System
                &&& p.2 == non_system(messages)[i].text@
                &&& p.3 == non_system(messages)[i].timestamp
            },
    decreases messages.len(),
{
    reveal(Seq::filter);
    if messages.len() > 0 {
        law_provider_messages_skip_system(session_id, messages.drop_last());
        let prev = spec_provider_messages(session_id, messages.drop_last());
        let ns = non_system(messages.drop_last());
        let m = messages.last();
        if m.role == MessageRole::System {
            assert(non_system(messages) == ns);
        } else {
            assert(non_system(messages) == ns.push(m));
            let cur = spec_provider_messages(session_id, messages);
            assert(cur == prev.push(
                (session_id + "-"@ + decimal(prev.len()), m.role, m.text@, m.timestamp),
            ));
            assert forall|i: int| 0 <= i < non_system(messages).len() implies {
                let p = #[trigger] spec_provider_messages(session_id, messages)[i];
                &&& p.0 == session_id + "-"@ + decimal(i as nat)
                &&& p.1 == non_system(messages)[i].role
                &&& p.1 != MessageRole::System
                &&& p.2 == non_system(messages)[i].text@
                &&& p.3 == non_system(messages)[i].timestamp
            } by {
                if i < prev.len() {
                    assert(cur[i] == prev[i]);
                    assert(ns.push(m)[i] == ns[i]);
                    assert(spec_provider_messages(session_id, messages.drop_last())[i] == prev[i]);
                }
            }
        }
    }
}

/// The fields of provider messages.
pub open spec fn message_fields(messages: Seq<Message>) -> Seq<(Seq<char>, MessageRole, Seq<char>, u64)> {
    Seq::new(
        messages.len(),
        |i: int| (messages[i].id@, messages[i].role, messages[i].content@, messages[i].timestamp),
    )
}

/// Builds the provider messages from a chat history.
pub fn provider_messages(session_id: &str, messages: &Vec<ChatMessage>) -> (r: Vec<Message>)
    ensures
        message_fields(r@) == spec_provider_messages(session_id@, messages@),
{
    let mut out: Vec<Message> = Vec::new();
    let mut i: usize = 0;
    assert(messages@.take(0) =~= Seq::<ChatMessage>::empty());
    assert(message_fields(out@) =~= spec_provider_messages(session_id@, messages@.take(0)));
    while i < messages.len()
        invariant
            i <= messages@.len(),
            message_fields(out@) == spec_provider_messages(session_id@, messages@.take(i as int)),
        decreases messages@.len() - i,
    {
        proof {
            assert(messages@.take(i + 1).drop_last() =~= messages@.take(i as int));
            assert(messages@.take(i + 1).last() == messages@[i as int]);
        }
        let m = &messages[i];
        if m.role != MessageRole::System {
            let n = u64_decimal(out.len() as u64);
            let mut id = concat3(session_id, "-", n.as_str());
            let msg = Message {
                id,
                role: m.role,
                content: m.text.clone(),
                timestamp: m.timestamp,
            };
            let ghost before = out@;
            out.push(msg);
            proof {
                reveal_strlit("-");
                assert(message_fields(out@) =~= message_fields(before).push(
                    (session_id@ + "-"@ + decimal(before.len()), m.role, m.text@, m.timestamp),
                ));
            }
        }
        i = i + 1;
    }
    assert(messages@.take(i as int) =~= messages@);
    out
}

/// Drives the chat: owns the state, the auth runtime and the provider, and
/// tracks the provider turn that the event loop is streaming.
pub struct AppController<P, S> {
    pub state: AppState,
    pub auth: AuthRuntime<P, S>,
    pub provider: OpenAiResponsesProvider,
    pub active_provider_turn: Option<String>,
    pub cancel_requested: bool,
    pub turn_sequence: u64,
}

impl<P: AuthProvider, S: TokenStore> AppController<P, S> {
    /// The turn id of the provider stream the event loop holds.
    pub closed spec fn spec_active_turn(&self) -> Option<String> {
        self.active_provider_turn
    }

    /// Whether the active stream's cancellation flag was set.
    pub closed spec fn spec_cancel_requested(&self) -> bool {
        self.cancel_requested
    }

    pub closed spec fn spec_turn_sequence(&self) -> u64 {
        self.turn_sequence
    }

    pub closed spec fn spec_provider(&self) -> OpenAiResponsesProvider {
        self.provider
    }

    /// What `/login` leaves behind: one system message that reports success
    /// (then the session is an OAuth one, and a headless login says so) or
    /// one of the two failures.
    pub open spec fn login_outcome(self, after: Self, mode: LoginCommandMode) -> bool {
        let report = after.state.messages@.last().text@;
        &&& after.state.messages@.len() == self.state.messages@.len() + 1
        &&& after.state.messages@.drop_last() == self.state.messages@
        &&& after.state.messages@.last().role == MessageRole::System
        &&& after.state.running == self.state.running
        &&& after.state.turn_state == self.state.turn_state
        &&& after.state.input == self.state.input
        &&& after.spec_active_turn() == self.spec_active_turn()
        &&& has_prefix(report, "Login succeeded via "@) ==> after.auth.credential() is OAuth
        &&& has_prefix(report, "Login succeeded via "@) || report == "Login failed: "@
            + "failed to complete OAuth login"@ || report == "Login failed: "@
            + "failed to persist token for provider `"@ + self.auth.spec_provider_id() + "`"@
        &&& has_prefix(report, "Login succeeded via "@) ==> (mode == LoginCommandMode::Headless
            ==> has_prefix(report, "Login succeeded via headless"@))
    }

    /// The clauses of `login_outcome`, one by one.
    proof fn lemma_login_outcome(a: Self, b: Self, mode: LoginCommandMode)
        requires
            b.state.messages@.len() == a.state.messages@.len() + 1,
            b.state.messages@.drop_last() == a.state.messages@,
            b.state.messages@.last().role == MessageRole::System,
            b.state.running == a.state.running,
            b.state.turn_state == a.state.turn_state,
            b.state.input == a.state.input,
            b.spec_active_turn() == a.spec_active_turn(),
            has_prefix(b.state.messages@.last().text@, "Login succeeded via "@)
                ==> b.auth.credential() is OAuth,
            has_prefix(b.state.messages@.last().text@, "Login succeeded via "@)
                || b.state.messages@.last().text@ == "Login failed: "@
                + "failed to complete OAuth login"@ || b.state.messages@.last().text@
                == "Login failed: "@ + "failed to persist token for provider `"@
                + a.auth.spec_provider_id() + "`"@,
            has_prefix(b.state.messages@.last().text@, "Login succeeded via "@) ==> (mode
                == LoginCommandMode::Headless ==> has_prefix(
                b.state.messages@.last().text@,
                "Login succeeded via headless"@,
            )),
        ensures
            a.login_outcome(b, mode),
    {
    }

    /// What `/auth` leaves behind: the status report of the unchanged auth
    /// runtime, as one system message.
    pub open spec fn auth_outcome(self, after: Self) -> bool {
        &&& after.state.messages@.len() == self.state.messages@.len() + 1
        &&& after.state.messages@.drop_last() == self.state.messages@
        &&& after.state.messages@.last().role == MessageRole::System
        &&& exists|now: u64|
            after.state.messages@.last().text@ == crate::auth::spec_report(
                crate::auth::credential_status(self.auth.credential(), now),
                crate::auth::credential_source(self.auth.credential()),
                self.auth.spec_provider_id(),
                self.auth.backend(),
                self.auth.warning(),
            )
        &&& after.auth == self.auth
        &&& after.state.running == self.state.running
        &&& after.state.turn_state == self.state.turn_state
        &&& after.state.input == self.state.input
        &&& after.spec_active_turn() == self.spec_active_turn()
    }

    /// What a cancel request leaves behind and asks of the event loop.
    pub open spec fn cancel_outcome(self, after: Self, r: ControllerEffect) -> bool {
        &&& self.spec_active_turn() is None ==> r == ControllerEffect::Nothing
            && after.state.status_line@ == "No active provider turn to cancel."@
            && after.state.turn_state == self.state.turn_state
        &&& self.spec_active_turn() is Some && !self.spec_cancel_requested() ==> r
            == ControllerEffect::CancelTurn && after.spec_cancel_requested()
            && after.state.status_line@ == "Cancel requested. Waiting for provider stream to stop..."@
            && (self.state.active_turn_id is Some ==> after.state.turn_state == TurnState::Cancelling)
        &&& self.spec_active_turn() is Some && self.spec_cancel_requested() ==> r
            == ControllerEffect::Nothing && after.state.status_line@
            == "Cancel already requested for active turn."@
            && after.state.turn_state == self.state.turn_state
        &&& after.state.messages == self.state.messages
        &&& after.state.running == self.state.running
        &&& after.state.active_turn_id == self.state.active_turn_id
        &&& after.state.input == self.state.input
        &&& after.spec_active_turn() == self.spec_active_turn()
        &&& after.auth == self.auth
    }

    /// What a key press does to the input line; nothing else changes.
    pub open spec fn key_outcome(self, after: Self, key: KeyEvent) -> bool {
        &&& after.state == (AppState { input: after.state.input, ..self.state })
        &&& after.auth == self.auth
        &&& after.spec_active_turn() == self.spec_active_turn()
        &&& on_boundary(after.state.input.text@, after.state.input.cursor as int)
        &&& after.state.input.well_formed()
        &&& key.code is Char ==> if key.modifiers.spec_is_empty() || key.modifiers.spec_is_shift_only() {
            after.state.input.text@ == self.state.input.text@.take(
                self.state.input.cursor_char(),
            ).push(key.code->Char_0) + self.state.input.text@.skip(
                self.state.input.cursor_char(),
            ) && after.state.input.cursor_char() == self.state.input.cursor_char() + 1
        } else {
            after.state.input == self.state.input
        }
        &&& key.code is Backspace ==> if self.state.input.cursor != 0 {
            after.state.input.text@ == remove_at(
                self.state.input.text@,
                self.state.input.cursor_char() - 1,
            ) && after.state.input.cursor_char() == self.state.input.cursor_char() - 1
        } else {
            after.state.input == self.state.input
        }
        &&& key.code is Delete ==> if self.state.input.cursor_char()
            < self.state.input.text@.len() {
            after.state.input.text@ == remove_at(
                self.state.input.text@,
                self.state.input.cursor_char(),
            ) && after.state.input.cursor_char() == self.state.input.cursor_char()
        } else {
            after.state.input == self.state.input
        }
        &&& key.code is Left ==> after.state.input.text == self.state.input.text && if self.state.input.cursor != 0 {
            after.state.input.cursor_char() == self.state.input.cursor_char() - 1
        } else {
            after.state.input == self.state.input
        }
        &&& key.code is Right ==> after.state.input.text == self.state.input.text && if self.state.input.cursor < byte_len(self.state.input.text@) {
            after.state.input.cursor_char() == self.state.input.cursor_char() + 1
        } else {
            after.state.input == self.state.input
        }
        &&& key.code is Home ==> after.state.input.text == self.state.input.text
            && after.state.input.cursor == 0
        &&& key.code is End ==> after.state.input.text == self.state.input.text
            && after.state.input.cursor_char() == self.state.input.text@.len()
        &&& !(key.code is Char || key.code is Backspace || key.code is Delete || key.code is Left
            || key.code is Right || key.code is Home || key.code is End) ==> after.state.input
            == self.state.input
    }

    /// What a provider stream event does to the chat and the turn.
    pub open spec fn provider_event_outcome(self, after: Self, event: ProviderEvent) -> bool {
        &&& event matches ProviderEvent::TextDelta(d) ==> {
            let i = self.state.active_assistant_message_index->0 as int;
            let open = self.state.active_assistant_message_index is Some
                && i < self.state.messages@.len();
            &&& after.spec_active_turn() == self.spec_active_turn()
            &&& open ==> after.state.messages@.len() == self.state.messages@.len()
            &&& open ==> after.state.messages@[i].text@
                == self.state.messages@[i].text@ + d@
            &&& open ==> after.state.messages@[i].role == self.state.messages@[i].role
            &&& open ==> forall|j: int| 0 <= j < self.state.messages@.len() && j != i
                ==> after.state.messages@[j] == self.state.messages@[j]
            &&& open && self.state.turn_state != TurnState::Cancelling
                ==> after.state.status_line@
                == "Streaming response... Use /cancel or Ctrl+X to stop."@
            &&& open && self.state.turn_state == TurnState::Cancelling
                ==> after.state.status_line == self.state.status_line
            &&& after.state == (AppState {
                messages: after.state.messages,
                status_line: after.state.status_line,
                ..self.state
            })
            &&& !open ==> after.state == self.state
        }
        &&& event == ProviderEvent::Completed ==> {
            &&& after.spec_active_turn() is None
            &&& after.state.turn_state == TurnState::Idle
            &&& after.state.active_turn_id is None
            &&& after.state.messages == self.state.messages
            &&& after.state.status_line@ == "Turn "@ + match self.state.active_turn_id {
                Some(id) => id@,
                None => "unknown-turn"@,
            } + " completed successfully."@
            &&& after.state == (AppState {
                status_line: after.state.status_line,
                turn_state: TurnState::Idle,
                active_turn_id: None,
                active_assistant_message_index: None,
                ..self.state
            })
        }
        &&& event == ProviderEvent::Cancelled ==> {
            &&& after.spec_active_turn() is None
            &&& after.state.turn_state == TurnState::Cancelled
            &&& after.state.active_turn_id is None
            &&& after.state.messages@ == crate::app::state::without_blank_tail(self.state.messages@)
            &&& after.state.status_line@ == "Turn "@ + match self.state.active_turn_id {
                Some(id) => id@,
                None => "unknown-turn"@,
            } + " cancelled."@
            &&& after.state == (AppState {
                messages: after.state.messages,
                status_line: after.state.status_line,
                turn_state: TurnState::Cancelled,
                active_turn_id: None,
                active_assistant_message_index: None,
                ..self.state
            })
        }
        &&& event matches ProviderEvent::Error(m) ==> {
            &&& after.spec_active_turn() is None
            &&& after.state.turn_state == TurnState::Idle
            &&& after.state.active_turn_id is None
            &&& after.state.status_line@ == "Provider error. See logs and system messages."@
            &&& history(after.state.messages@) == history(self.state.messages@).push(
                (MessageRole::System, "Provider error: "@ + m@),
            )
            &&& after.state.messages@.drop_last() == self.state.messages@
            &&& after.state == (AppState {
                messages: after.state.messages,
                status_line: after.state.status_line,
                turn_state: TurnState::Idle,
                active_turn_id: None,
                active_assistant_message_index: None,
                ..self.state
            })
        }
        &&& event matches ProviderEvent::ToolCallRequested(call) ==> {
            &&& after.spec_active_turn() == self.spec_active_turn()
            &&& history(after.state.messages@) == history(self.state.messages@).push(
                (MessageRole::System, "Tool call requested (`"@ + call.name@
                    + "`) but tool execution is not enabled in Phase 4."@),
            )
            &&& after.state.messages@.drop_last() == self.state.messages@
            &&& after.state.status_line@
                == "Tool call requested, but tools are not enabled in this phase."@
            &&& after.state == (AppState {
                messages: after.state.messages,
                status_line: after.state.status_line,
                ..self.state
            })
        }
        &&& after.state.running == self.state.running
        &&& after.state.input == self.state.input
        &&& after.auth == self.auth
    }

    /// What a local command does and asks of the event loop.
    pub open spec fn command_outcome_of(self, after: Self, command: LocalCommand, r: ControllerEffect) -> bool {
        &&& command == LocalCommand::Help ==> r == ControllerEffect::Nothing
            && history(after.state.messages@) == history(self.state.messages@).push(
            (MessageRole::System, spec_help_message()),
        ) && after.state.status_line@
            == "Displayed local help. No network calls were made."@
            && after.state.running == self.state.running
        &&& command == LocalCommand::Quit ==> r == ControllerEffect::Nothing && !after.state.running
            && after.state.status_line@ == "Shutting down..."@
            && after.state.messages == self.state.messages
        &&& command == LocalCommand::Logout ==> r == ControllerEffect::Logout
            && after.state == self.state
        &&& command matches LocalCommand::Login(mode) ==> r == ControllerEffect::Nothing
            && self.login_outcome(after, mode)
        &&& command == LocalCommand::Auth ==> r == ControllerEffect::Nothing
            && self.auth_outcome(after)
        &&& command == LocalCommand::Cancel ==> self.cancel_outcome(after, r)
        &&& after.state.input == self.state.input
        &&& after.spec_active_turn() == self.spec_active_turn()
        &&& after.state.messages@.len() >= self.state.messages@.len()
        &&& after.state.messages@.take(self.state.messages@.len() as int)
            == self.state.messages@
    }

    /// What submitting the input line does and asks of the event loop.
    pub open spec fn submit_outcome(self, after: Self, r: ControllerEffect) -> bool {
        &&& after.state.input.text@ == Seq::<char>::empty()
        &&& after.state.input.cursor == 0
        &&& after.state.input.well_formed()
        &&& trim(self.state.input.text@).len() == 0 ==> r == ControllerEffect::Nothing
            && after.state.status_line@ == "Input is empty."@
            && after.state.messages == self.state.messages
            && after.state.running == self.state.running
        &&& trim(self.state.input.text@).len() != 0 ==> {
            &&& after.state.messages@.len() > self.state.messages@.len()
            &&& after.state.messages@.take(self.state.messages@.len() as int)
                == self.state.messages@
            &&& after.state.messages@[self.state.messages@.len() as int].role
                == MessageRole::User
            &&& after.state.messages@[self.state.messages@.len() as int].text
                == self.state.input.text
        }
        &&& trim(self.state.input.text@).len() != 0 && is_slash_input(self.state.input.text@)
            && !(command_outcome(command_word(self.state.input.text@), command_args(self.state.input.text@))
            is Parsed) ==> {
            &&& r == ControllerEffect::Nothing
            &&& after.state.messages@.len() == self.state.messages@.len() + 2
            &&& after.state.messages@.last().role == MessageRole::System
            &&& after.state.messages@.last().text@ == "Command error: "@ + outcome_error_text(
                command_outcome(command_word(self.state.input.text@), command_args(self.state.input.text@)),
            )
            &&& after.state.status_line@ == "Command failed. Use /help for available commands."@
            &&& after.state.running == self.state.running
            &&& after.spec_active_turn() == self.spec_active_turn()
        }
        &&& trim(self.state.input.text@).len() != 0 && !is_slash_input(self.state.input.text@)
            && !self.state.turn_state.is_active_spec() ==> r is StartTurn
        &&& !is_slash_input(self.state.input.text@) ==> (r matches ControllerEffect::StartTurn(req)
            ==> {
            &&& req.session_id == self.state.session_id
            &&& req.model == self.state.model
            &&& req.variant == self.state.variant
            &&& message_fields(req.messages@) == spec_provider_messages(
                after.state.session_id@,
                after.state.messages@,
            )
        })
        &&& trim(self.state.input.text@).len() != 0 && !is_slash_input(self.state.input.text@)
            && self.state.turn_state.is_active_spec() ==> r == ControllerEffect::Nothing
            && after.state.status_line@
            == "A provider turn is already active. Wait for completion or use /cancel."@
            && after.state.messages@.len() == self.state.messages@.len() + 1
        &&& trim(self.state.input.text@).len() != 0 && is_slash_input(self.state.input.text@)
            && command_outcome(command_word(self.state.input.text@), command_args(self.state.input.text@))
            == crate::app::state::CommandOutcome::Parsed(LocalCommand::Quit) ==> !after.state.running
        &&& !(r is StartTurn) ==> after.spec_active_turn() == self.spec_active_turn()
        &&& trim(self.state.input.text@).len() != 0 && is_slash_input(self.state.input.text@) ==> (
            command_outcome(command_word(self.state.input.text@), command_args(self.state.input.text@))
            matches crate::app::state::CommandOutcome::Parsed(c) ==> exists|mid: Self|
            {
                &&& mid.state.messages@.drop_last() == self.state.messages@
                &&& mid.state.messages@.last().role == MessageRole::User
                &&& mid.state.messages@.last().text == self.state.input.text
                &&& mid.state.running == self.state.running
                &&& mid.state.turn_state == self.state.turn_state
                &&& mid.auth == self.auth
                &&& mid.spec_active_turn() == self.spec_active_turn()
                &&& #[trigger] mid.command_outcome_of(after, c, r)
            })
    }

    /// The request for the next turn and what building it does to the chat and the auth runtime.
    pub open spec fn request_outcome(self, after: Self, r: ProviderTurnRequest) -> bool {
        &&& r.session_id == self.state.session_id
        &&& r.model == self.state.model
        &&& r.variant == self.state.variant
        &&& r.turn_id@ == self.state.session_id@ + "-turn-"@ + decimal(
            after.spec_turn_sequence() as nat,
        )
        &&& message_fields(r.messages@) == spec_provider_messages(
            after.state.session_id@,
            after.state.messages@,
        )
        &&& r.auth.source@ == crate::auth::credential_source(after.auth.credential()).spec_label()
        &&& r.auth.provider_id@ == after.auth.spec_provider_id()
        &&& exists|now: u64|
            r.auth.status@ == #[trigger] crate::auth::credential_status(
                after.auth.credential(),
                now,
            ).spec_label()
        &&& after.state.messages@.len() >= self.state.messages@.len()
        &&& after.state.messages@.take(self.state.messages@.len() as int)
            == self.state.messages@
        &&& after.state == (AppState { messages: after.state.messages, ..self.state })
        &&& after.spec_active_turn() == self.spec_active_turn()
        &&& self.auth.credential() is SignedOut ==> r.auth.access_token is None
            && after.state.messages == self.state.messages
        &&& self.auth.credential() matches crate::auth::ResolvedCredential::ApiKey(k)
            ==> r.auth.access_token == Some(k) && after.state.messages
            == self.state.messages
        &&& self.auth.credential() matches crate::auth::ResolvedCredential::OAuth(before) ==> {
            ||| after.auth.credential() matches crate::auth::ResolvedCredential::OAuth(s)
                && r.auth.access_token == Some(s.access_token) && after.state.messages
                == self.state.messages && self.auth.spec_provider().refreshes(before, s, true)
            ||| after.auth.credential() is SignedOut && r.auth.access_token is None
                && (self.auth.refresh_may_fail(before) || !self.auth.store().writes_succeed())
                && after.state.messages@.drop_last() == self.state.messages@
                && (history(after.state.messages@) == history(self.state.messages@).push(
                (MessageRole::System, "Auth refresh-before-request failed: "@ + (
                "failed to refresh OAuth session for `"@ + self.auth.spec_provider_id()
                    + "`"@)),
            ) || history(after.state.messages@) == history(self.state.messages@).push(
                (MessageRole::System, "Auth refresh-before-request failed: "@ + (
                "failed to persist token for provider `"@ + self.auth.spec_provider_id()
                    + "`"@)),
            ))
        }
        &&& self.auth.credential() matches crate::auth::ResolvedCredential::OAuth(before) ==> (
            !self.auth.refresh_may_fail(before) && self.auth.store().writes_succeed()
                ==> r.auth.access_token is Some && after.state.messages == self.state.messages)
    }

    /// The provider that runs turns.
    pub fn provider(&self) -> (r: &OpenAiResponsesProvider)
        ensures
            *r == self.spec_provider(),
    {
        &self.provider
    }

    /// Whether the event loop should hold a provider stream.
    pub fn has_active_provider_turn(&self) -> (r: bool)
        ensures
            r == self.spec_active_turn() is Some,
    {
        self.active_provider_turn.is_some()
    }

    /// A controller whose state reports the auth bootstrap and the provider.
    pub fn new_with_auth_and_config(auth: AuthRuntime<P, S>, config: AppConfig) -> (r: Self)
        ensures
            r.state.model == config.model,
            r.state.variant == config.openai.variant,
            r.state.running,
            r.state.turn_state == TurnState::Idle,
            r.state.active_turn_id is None,
            r.state.input.text@ == Seq::<char>::empty(),
            r.state.input.cursor == 0,
            r.spec_active_turn() is None,
            r.spec_turn_sequence() == 0,
            r.spec_provider().spec_base_url() == config.openai.base_url@,
            r.state.messages@.len() == (if auth.warning() is Some { 5int } else { 4int }),
            history(r.state.messages@).take(2) == seq![
                (MessageRole::System, "Phase 4 streaming architecture is active. Use /auth to inspect session status; run /login only when signed out."@),
                (MessageRole::Assistant, "Try typing a prompt, then press Enter. Use /cancel to stop an active stream."@),
            ],
            exists|ts: u64| r.state.session_id@ == "session-"@ + #[trigger] decimal(ts as nat),
            r.state.messages@[2].role == MessageRole::System,
            has_prefix(r.state.messages@[2].text@, "Auth bootstrap: Auth report | "@),
            exists|now: u64|
                r.state.messages@[2].text@ == "Auth bootstrap: "@ + #[trigger] crate::auth::spec_report(
                    crate::auth::credential_status(auth.credential(), now),
                    crate::auth::credential_source(auth.credential()),
                    auth.spec_provider_id(),
                    auth.backend(),
                    auth.warning(),
                ),
            auth.warning() matches Some(w) ==> {
                &&& r.state.messages@[3].role == MessageRole::System
                &&& r.state.messages@[3].text@ == "Auth warning: "@ + w
                &&& r.state.status_line@ == "Auth warning: "@ + w
            },
            auth.warning() is None ==> exists|now: u64|
                r.state.status_line@ == "Auth bootstrap completed ("@
                    + #[trigger] crate::auth::credential_status(auth.credential(), now).spec_label()
                    + "). Enter sends, /help lists commands."@,
            r.state.messages@.last().role == MessageRole::System,
            r.state.messages@.last().text@ == "Provider bootstrap: openai-responses (endpoint: "@
                + spec_endpoint(config.openai.base_url@) + ")"@,
            r.auth == auth,
    {
        let mut state = AppState::default();
        state.set_model_and_variant(config.model.clone(), config.openai.variant.clone());
        let ts = unix_timestamp_secs();
        let stamp = u64_decimal(ts);
        state.set_session_id(concat2("session-", stamp.as_str()));
        assert(state.session_id@ == "session-"@ + decimal(ts as nat));
        let report = auth.status_report();
        let boot = concat2("Auth bootstrap: ", report.as_str());
        proof {
            let ghost now = choose|now: u64|
                report@ == crate::auth::spec_report(
                    crate::auth::credential_status(auth.credential(), now),
                    crate::auth::credential_source(auth.credential()),
                    auth.spec_provider_id(),
                    auth.backend(),
                    auth.warning(),
                );
            reveal_strlit("Auth bootstrap: ");
            reveal_strlit("Auth report | status: ");
            reveal_strlit("Auth bootstrap: Auth report | ");
            assert(boot@.take("Auth bootstrap: Auth report | "@.len() as int)
                =~= "Auth bootstrap: Auth report | "@);
            assert(boot@ == "Auth bootstrap: "@ + crate::auth::spec_report(
                crate::auth::credential_status(auth.credential(), now),
                crate::auth::credential_source(auth.credential()),
                auth.spec_provider_id(),
                auth.backend(),
                auth.warning(),
            ));
        }
        let ghost d0 = state.messages@;
        assert(history(d0).len() == 2);
        state.push_message(MessageRole::System, boot);
        let ghost m2 = state.messages@[2];
        assert(state.messages@.drop_last() == d0);
        assert(m2.text@ == boot@);
        match auth.startup_warning() {
            Some(warning) => {
                let ghost before = state.messages@;
                state.push_message(MessageRole::System, concat2("Auth warning: ", warning));
                assert(state.messages@.drop_last() == before);
                assert(state.messages@[2] == before[2]);
                state.set_status(concat2("Auth warning: ", warning));
            },
            None => {
                let st = auth.status();
                let ghost snow = choose|now: u64| st == crate::auth::credential_status(
                    auth.credential(),
                    now,
                );
                assert(st == crate::auth::credential_status(auth.credential(), snow));
                let mut s = concat3("Auth bootstrap completed (", st.label(), ")");
                s.append(". Enter sends, /help lists commands.");
                proof {
                    reveal_strlit(")");
                    reveal_strlit(". Enter sends, /help lists commands.");
                    reveal_strlit("). Enter sends, /help lists commands.");
                    assert(s@ =~= "Auth bootstrap completed ("@ + st.spec_label()
                        + "). Enter sends, /help lists commands."@);
                }
                state.set_status(s);
            },
        }
        let provider = build_provider(&config);
        let endpoint = if starts_with_mock(config.openai.base_url.as_str()) {
            config.openai.base_url.clone()
        } else {
            owned("https://chatgpt.com/backend-api/codex/responses")
        };
        let mut line = concat3("Provider bootstrap: ", provider.id(), " (endpoint: ");
        line.append(endpoint.as_str());
        line.append(")");
        proof {
            reveal_strlit("Provider bootstrap: ");
            reveal_strlit("openai-responses");
            reveal_strlit(" (endpoint: ");
            reveal_strlit("Provider bootstrap: openai-responses (endpoint: ");
            assert(line@ =~= "Provider bootstrap: openai-responses (endpoint: "@ + spec_endpoint(
                config.openai.base_url@,
            ) + ")"@);
        }
        let ghost d1 = state.messages@;
        assert(d1.len() >= 3 && d1[2] == m2);
        state.push_message(MessageRole::System, line);
        assert(state.messages@.drop_last() == d1);
        assert(state.messages@[2] == m2);
        assert(history(state.messages@).take(2) =~= history(d0));
        AppController {
            state,
            auth,
            provider,
            active_provider_turn: None,
            cancel_requested: false,
            turn_sequence: 0,
        }
    }

    /// Applies a key press to the input line.
    pub fn handle_key(&mut self, key: KeyEvent)
        requires
            old(self).state.input.well_formed(),
        ensures
            old(self).key_outcome(*final(self), key),
    {
        match key.code {
            KeyCode::Backspace => {
                self.state.input.backspace();
            },
            KeyCode::Delete => {
                self.state.input.delete();
            },
            KeyCode::Left => {
                self.state.input.move_left();
            },
            KeyCode::Right => {
                self.state.input.move_right();
            },
            KeyCode::Home => {
                self.state.input.move_home();
            },
            KeyCode::End => {
                self.state.input.move_end();
            },
            KeyCode::Char(character) => {
                let plain = key.modifiers.is_empty();
                let shift_only = key.modifiers.shift && !key.modifiers.control && !key.modifiers.alt
                    && !key.modifiers.super_key && !key.modifiers.hyper && !key.modifiers.meta;
                if plain || shift_only {
                    self.state.input.insert_char(character);
                }
            },
            _ => {},
        }
    }

    fn next_turn_id(&mut self) -> (r: String)
        ensures
            final(self).turn_sequence == (if old(self).turn_sequence == u64::MAX {
                0
            } else {
                old(self).turn_sequence + 1
            }),
            r@ == old(self).state.session_id@ + "-turn-"@ + decimal(final(self).turn_sequence as nat),
            final(self).state == old(self).state,
            final(self).auth == old(self).auth,
            final(self).active_provider_turn == old(self).active_provider_turn,
            final(self).cancel_requested == old(self).cancel_requested,
            final(self).provider == old(self).provider,
    {
        self.turn_sequence = if self.turn_sequence == u64::MAX {
            0
        } else {
            self.turn_sequence + 1
        };
        let n = u64_decimal(self.turn_sequence);
        concat3(self.state.session_id.as_str(), "-turn-", n.as_str())
    }

    /// The messages sent to the provider: every non-system message of the
    /// history, with ids numbered among them.
    pub fn build_provider_messages(&self) -> (r: Vec<Message>)
        ensures
            message_fields(r@) == spec_provider_messages(
                self.state.session_id@,
                self.state.messages@,
            ),
    {
        provider_messages(self.state.session_id.as_str(), &self.state.messages)
    }

    /// The request for the next provider turn; resolving the access token may
    /// refresh the OAuth session, and a failure there is reported in the chat.
    pub fn build_provider_turn_request(&mut self) -> (r: ProviderTurnRequest)
        ensures
            old(self).request_outcome(*final(self), r),
    {
        let access_token = match self.auth.resolve_access_token_for_request() {
            Ok(token) => token,
            Err(error) => {
                self.state.push_message(
                    MessageRole::System,
                    concat2("Auth refresh-before-request failed: ", error.message.as_str()),
                );
                proof {
                    assert(history(self.state.messages@) =~= history(old(self).state.messages@).push(
                        (MessageRole::System, "Auth refresh-before-request failed: "@ + error.message@),
                    ));
                }
                None
            },
        };
        proof {
            assert(self.state.messages@.take(old(self).state.messages@.len() as int)
                =~= old(self).state.messages@);
        }
        let turn_id = self.next_turn_id();
        let auth_context = ProviderAuthContext {
            access_token,
            source: owned(self.auth.source().label()),
            status: owned(self.auth.status().label()),
            provider_id: owned(self.auth.provider_id()),
        };
        ProviderTurnRequest {
            turn_id,
            session_id: self.state.session_id.clone(),
            model: self.state.model.clone(),
            variant: self.state.variant.clone(),
            messages: self.build_provider_messages(),
            auth: auth_context,
        }
    }

    /// Asks for a provider turn unless one is already active.
    fn start_provider_turn(&mut self) -> (r: ControllerEffect)
        ensures
            old(self).state.turn_state.is_active_spec() ==> r == ControllerEffect::Nothing
                && final(self).state.status_line@
                == "A provider turn is already active. Wait for completion or use /cancel."@
                && final(self).state == (AppState { status_line: final(self).state.status_line, ..old(self).state }),
            !old(self).state.turn_state.is_active_spec() ==> r is StartTurn,
            r matches ControllerEffect::StartTurn(req) ==> {
                &&& req.session_id == old(self).state.session_id
                &&& req.model == old(self).state.model
                &&& req.variant == old(self).state.variant
                &&& message_fields(req.messages@) == spec_provider_messages(
                    final(self).state.session_id@,
                    final(self).state.messages@,
                )
                &&& old(self).request_outcome(*final(self), req)
            },
            final(self).state.messages@.len() >= old(self).state.messages@.len(),
            final(self).state.messages@.take(old(self).state.messages@.len() as int)
                == old(self).state.messages@,
            final(self).spec_active_turn() == old(self).spec_active_turn(),
            final(self).state.running == old(self).state.running,
            final(self).state.turn_state == old(self).state.turn_state,
            final(self).state.input == old(self).state.input,
    {
        if self.state.turn_state.is_active() {
            self.state.set_status(
                owned("A provider turn is already active. Wait for completion or use /cancel."),
            );
            return ControllerEffect::Nothing;
        }
        let request = self.build_provider_turn_request();
        ControllerEffect::StartTurn(request)
    }

    /// The event loop started the requested turn.
    pub fn provider_turn_started(&mut self, turn_id: String)
        ensures
            final(self).spec_active_turn() == Some(turn_id),
            !final(self).spec_cancel_requested(),
            final(self).state.turn_state == TurnState::Streaming,
            final(self).state.active_turn_id == Some(turn_id),
            final(self).state.messages@.drop_last() == old(self).state.messages@,
            final(self).state.messages@.last().role == MessageRole::Assistant,
            final(self).state.messages@.last().text@ == Seq::<char>::empty(),
            final(self).state.status_line@
                == "Streaming response via openai-responses. Use /cancel or Ctrl+X to stop."@,
            final(self).state.running == old(self).state.running,
            final(self).state.input == old(self).state.input,
    {
        self.state.begin_streaming_turn(turn_id.clone());
        let s = concat3("Streaming response via ", self.provider.id(), ". Use /cancel or Ctrl+X to stop.");
        proof {
            reveal_strlit("Streaming response via ");
            reveal_strlit("openai-responses");
            reveal_strlit(". Use /cancel or Ctrl+X to stop.");
            reveal_strlit("Streaming response via openai-responses. Use /cancel or Ctrl+X to stop.");
            assert(s@ =~= "Streaming response via openai-responses. Use /cancel or Ctrl+X to stop."@);
        }
        self.state.set_status(s);
        self.active_provider_turn = Some(turn_id);
        self.cancel_requested = false;
    }

    /// The event loop could not start the requested turn.
    pub fn provider_turn_failed(&mut self, error: String)
        ensures
            history(final(self).state.messages@) == history(old(self).state.messages@).push(
                (MessageRole::System, "Provider request failed to start: "@ + error@),
            ),
            final(self).state.messages@.drop_last() == old(self).state.messages@,
            final(self).state.status_line@
                == "Provider request failed to start. See logs for details."@,
            final(self).state.turn_state == old(self).state.turn_state,
            final(self).state.running == old(self).state.running,
            final(self).spec_active_turn() == old(self).spec_active_turn(),
    {
        self.state.push_message(
            MessageRole::System,
            concat2("Provider request failed to start: ", error.as_str()),
        );
        self.state.set_status(owned("Provider request failed to start. See logs for details."));
        proof {
            assert(history(self.state.messages@) =~= history(old(self).state.messages@).push(
                (MessageRole::System, "Provider request failed to start: "@ + error@),
            ));
        }
    }

    /// Cancels the active provider turn, once.
    pub fn handle_cancel_turn_request(&mut self) -> (r: ControllerEffect)
        ensures
            old(self).cancel_outcome(*final(self), r),
    {
        if self.active_provider_turn.is_none() {
            self.state.set_status(owned("No active provider turn to cancel."));
            return ControllerEffect::Nothing;
        }
        if !self.cancel_requested {
            self.cancel_requested = true;
            self.state.mark_turn_cancelling();
            self.state.set_status(owned("Cancel requested. Waiting for provider stream to stop..."));
            ControllerEffect::CancelTurn
        } else {
            self.state.set_status(owned("Cancel already requested for active turn."));
            ControllerEffect::Nothing
        }
    }

    fn handle_login_command(&mut self, mode: LoginCommandMode)
        ensures
            old(self).login_outcome(*final(self), mode),
    {
        let method = match mode {
            LoginCommandMode::Browser => AuthLoginMethod::Browser,
            LoginCommandMode::Headless => AuthLoginMethod::Headless,
        };
        proof {
            reveal_strlit("Login succeeded via ");
            reveal_strlit("Login failed: ");
            reveal_strlit("headless");
            reveal_strlit("Login succeeded via headless");
        }
        match self.auth.login(method) {
            Ok(status) => {
                let report = self.auth.status_report();
                let mut m = concat3("Login succeeded via ", method.label(), ". ");
                m.append(report.as_str());
                assert(m@.take("Login succeeded via "@.len() as int) =~= "Login succeeded via "@);
                if mode == LoginCommandMode::Headless {
                    assert(m@.take("Login succeeded via headless"@.len() as int)
                        =~= "Login succeeded via headless"@);
                }
                self.state.push_message(MessageRole::System, m);
                self.state.set_status(concat3("Login completed (", status.label(), ")."));
                proof {
                    Self::lemma_login_outcome(*old(self), *self, mode);
                }
            },
            Err(error) => {
                let m = concat2("Login failed: ", error.message.as_str());
                assert(!has_prefix(m@, "Login succeeded via "@)) by {
                    assert(m@[6] != "Login succeeded via "@[6]);
                }
                self.state.push_message(MessageRole::System, m);
                self.state.set_status(owned("Login failed. See logs for details."));
                proof {
                    let id = old(self).auth.spec_provider_id();
                    assert(m@ =~= "Login failed: "@ + "failed to complete OAuth login"@ || m@
                        =~= "Login failed: "@ + "failed to persist token for provider `"@ + id
                        + "`"@);
                    Self::lemma_login_outcome(*old(self), *self, mode);
                }
            },
        }
    }

    fn handle_auth_command(&mut self)
        ensures
            old(self).auth_outcome(*final(self)),
    {
        let report = self.auth.status_report();
        self.state.push_message(MessageRole::System, report);
        let st = self.auth.status();
        self.state.set_status(concat3("Displayed auth status (", st.label(), ")"));
    }

    /// Completes `/logout` with the API key read from the environment.
    pub fn complete_logout(&mut self, api_key: Option<String>)
        ensures
            final(self).state.messages@.len() == old(self).state.messages@.len() + 1,
            final(self).state.messages@.drop_last() == old(self).state.messages@,
            final(self).state.messages@.last().role == MessageRole::System,
            has_prefix(final(self).state.messages@.last().text@, "Logout completed. "@) ==> (
            final(self).auth.credential() == crate::auth::spec_logout_credential(api_key)
                && final(self).auth.store().stored(old(self).auth.spec_provider_id()) is None),
            !has_prefix(final(self).state.messages@.last().text@, "Logout completed. "@) ==> (
            final(self).state.messages@.last().text@ == "Logout failed: "@
                + "failed to clear token for provider `"@ + old(self).auth.spec_provider_id()
                + "`"@ && final(self).auth.credential() == old(self).auth.credential()),
            final(self).state.running == old(self).state.running,
            final(self).state.turn_state == old(self).state.turn_state,
            final(self).state.input == old(self).state.input,
            final(self).spec_active_turn() == old(self).spec_active_turn(),
    {
        proof {
            reveal_strlit("Logout completed. ");
            reveal_strlit("Logout failed: ");
        }
        match self.auth.logout_with_api_key(api_key) {
            Ok(status) => {
                let report = self.auth.status_report();
                let m = concat2("Logout completed. ", report.as_str());
                assert(m@.take("Logout completed. "@.len() as int) =~= "Logout completed. "@);
                self.state.push_message(MessageRole::System, m);
                self.state.set_status(concat3("Logout completed (", status.label(), ")."));
            },
            Err(error) => {
                let m = concat2("Logout failed: ", error.message.as_str());
                assert(!has_prefix(m@, "Logout completed. "@)) by {
                    assert(m@[7] != "Logout completed. "@[7]);
                }
                self.state.push_message(MessageRole::System, m);
                self.state.set_status(owned("Logout failed. See logs for details."));
            },
        }
    }

    /// Runs a local command.
    pub fn handle_command(&mut self, command: LocalCommand) -> (r: ControllerEffect)
        ensures
            old(self).command_outcome_of(*final(self), command, r),
    {
        match command {
            LocalCommand::Help => {
                self.state.push_message(MessageRole::System, local_help_message());
                self.state.set_status(owned("Displayed local help. No network calls were made."));
                proof {
                    assert(history(self.state.messages@) =~= history(old(self).state.messages@).push(
                        (MessageRole::System, spec_help_message()),
                    ));
                    assert(self.state.messages@.take(old(self).state.messages@.len() as int)
                        =~= old(self).state.messages@);
                }
                ControllerEffect::Nothing
            },
            LocalCommand::Login(mode) => {
                self.handle_login_command(mode);
                assert(self.state.messages@.take(old(self).state.messages@.len() as int)
                    =~= old(self).state.messages@);
                ControllerEffect::Nothing
            },
            LocalCommand::Auth => {
                self.handle_auth_command();
                assert(self.state.messages@.take(old(self).state.messages@.len() as int)
                    =~= old(self).state.messages@);
                ControllerEffect::Nothing
            },
            LocalCommand::Logout => {
                assert(self.state.messages@.take(old(self).state.messages@.len() as int)
                    =~= old(self).state.messages@);
                ControllerEffect::Logout
            },
            LocalCommand::Cancel => {
                let r = self.handle_cancel_turn_request();
                assert(self.state.messages@.take(old(self).state.messages@.len() as int)
                    =~= old(self).state.messages@);
                r
            },
            LocalCommand::Quit => {
                self.state.set_status(owned("Received /quit command. Closing app..."));
                self.state.request_quit();
                assert(self.state.messages@.take(old(self).state.messages@.len() as int)
                    =~= old(self).state.messages@);
                ControllerEffect::Nothing
            },
        }
    }

    /// Submits the input line: blank input is refused, slash input runs a
    /// local command (or reports why it cannot), anything else starts a
    /// provider turn. Submitted text is recorded as a user message.
    pub fn handle_submit(&mut self) -> (r: ControllerEffect)
        ensures
            old(self).submit_outcome(*final(self), r),
    {
        let submitted = self.state.input.take_text();
        let t = trim_str(submitted.as_str());
        if t.as_str().is_empty() {
            self.state.set_status(owned("Input is empty."));
            return ControllerEffect::Nothing;
        }
        let parsed = parse_local_command(submitted.as_str());
        let ghost n0 = self.state.messages@.len();
        self.state.push_message(MessageRole::User, submitted);
        let ghost after_user = self.state.messages@;
        match parsed {
            Some(Ok(command)) => {
                let ghost mid = *self;
                let r = self.handle_command(command);
                assert(mid.command_outcome_of(*self, command, r));
                proof {
                    let now = self.state.messages@;
                    assert(now.take(n0 as int + 1) == after_user);
                    assert(now.take(n0 as int) =~= now.take(n0 as int + 1).take(n0 as int));
                    assert(after_user.take(n0 as int) =~= after_user.drop_last());
                    assert(now[n0 as int] == now.take(n0 as int + 1)[n0 as int]);
                }
                r
            },
            Some(Err(error)) => {
                let m = error.message();
                let text = concat2("Command error: ", m.as_str());
                self.state.push_message(MessageRole::System, text);
                let ghost after_sys = self.state.messages@;
                assert(after_sys.drop_last() == after_user);
                self.state.set_status(owned("Command failed. Use /help for available commands."));
                proof {
                    assert(after_sys.take(n0 as int) =~= after_user.take(n0 as int));
                    assert(after_user.take(n0 as int) =~= after_user.drop_last());
                    assert(after_sys[n0 as int] == after_user[n0 as int]);
                }
                ControllerEffect::Nothing
            },
            None => {
                let r = self.start_provider_turn();
                proof {
                    let now = self.state.messages@;
                    assert(now.take(n0 as int + 1) == after_user);
                    assert(now.take(n0 as int) =~= now.take(n0 as int + 1).take(n0 as int));
                    assert(after_user.take(n0 as int) =~= after_user.drop_last());
                    assert(now[n0 as int] == now.take(n0 as int + 1)[n0 as int]);
                }
                r
            },
        }
    }

    /// Applies a provider stream event.
    pub fn handle_provider_event(&mut self, event: ProviderEvent)
        ensures
            old(self).provider_event_outcome(*final(self), event),
    {
        match event {
            ProviderEvent::TextDelta(delta) => {
                if !self.state.append_assistant_delta(delta.as_str()) {
                    return;
                }
                if self.state.turn_state != TurnState::Cancelling {
                    self.state.set_status(
                        owned("Streaming response... Use /cancel or Ctrl+X to stop."),
                    );
                }
            },
            ProviderEvent::Completed => {
                let turn_id = match self.state.complete_active_turn() {
                    Some(id) => id,
                    None => owned("unknown-turn"),
                };
                self.active_provider_turn = None;
                self.state.set_status(concat3("Turn ", turn_id.as_str(), " completed successfully."));
            },
            ProviderEvent::Cancelled => {
                let turn_id = match self.state.cancel_active_turn() {
                    Some(id) => id,
                    None => owned("unknown-turn"),
                };
                self.active_provider_turn = None;
                self.state.set_status(concat3("Turn ", turn_id.as_str(), " cancelled."));
            },
            ProviderEvent::Error(message) => {
                self.state.push_message(
                    MessageRole::System,
                    concat2("Provider error: ", message.as_str()),
                );
                let ghost pushed = self.state.messages@;
                let _ = self.state.fail_active_turn();
                assert(self.state.messages@ == pushed);
                self.active_provider_turn = None;
                self.state.set_status(owned("Provider error. See logs and system messages."));
                proof {
                    assert(history(self.state.messages@) =~= history(old(self).state.messages@).push(
                        (MessageRole::System, "Provider error: "@ + message@),
                    ));
                }
            },
            ProviderEvent::ToolCallRequested(tool_call) => {
                self.state.push_message(
                    MessageRole::System,
                    concat3(
                        "Tool call requested (`",
                        tool_call.name.as_str(),
                        "`) but tool execution is not enabled in Phase 4.",
                    ),
                );
                self.state.set_status(
                    owned("Tool call requested, but tools are not enabled in this phase."),
                );
                proof {
                    assert(history(self.state.messages@) =~= history(old(self).state.messages@).push(
                        (MessageRole::System, "Tool call requested (`"@ + tool_call.name@
                            + "`) but tool execution is not enabled in Phase 4."@),
                    ));
                }
            },
        }
    }

    /// The provider stream closed before the turn finished.
    pub fn provider_stream_disconnected(&mut self)
        ensures
            final(self).spec_active_turn() is None,
            old(self).state.active_turn_id is Some ==> {
                &&& final(self).state.turn_state == TurnState::Idle
                &&& final(self).state.active_turn_id is None
                &&& final(self).state.status_line@ == "Provider stream disconnected unexpectedly."@
                &&& history(final(self).state.messages@) == history(old(self).state.messages@).push(
                    (MessageRole::System, "Provider stream disconnected before completion."@),
                )
                &&& final(self).state.messages@.drop_last() == old(self).state.messages@
            },
            old(self).state.active_turn_id is None ==> final(self).state == old(self).state,
            final(self).state.running == old(self).state.running,
    {
        if self.state.has_active_turn() {
            self.state.push_message(
                MessageRole::System,
                owned("Provider stream disconnected before completion."),
            );
            let ghost pushed = self.state.messages@;
            let _ = self.state.fail_active_turn();
            assert(self.state.messages@ == pushed);
            self.state.set_status(owned("Provider stream disconnected unexpectedly."));
            proof {
                assert(history(self.state.messages@) =~= history(old(self).state.messages@).push(
                    (MessageRole::System, "Provider stream disconnected before completion."@),
                ));
            }
        }
        self.active_provider_turn = None;
    }

    /// Applies one event; the result names the outside work it needs.
    pub fn handle_event(&mut self, event: AppEvent) -> (r: ControllerEffect)
        requires
            old(self).state.input.well_formed(),
        ensures
            final(self).state.input.well_formed(),
            event == AppEvent::Quit ==> !final(self).state.running && r == ControllerEffect::Nothing,
            event == AppEvent::Tick ==> r == ControllerEffect::Nothing && final(self).state
                == (AppState { last_tick: final(self).state.last_tick, ..old(self).state }),
            event matches AppEvent::Resize(w, h) ==> r == ControllerEffect::Nothing
                && final(self).state.status_line@ == "Resized to "@ + decimal(w as nat) + "x"@
                + decimal(h as nat) + ". Enter sends. Commands: "@ + LOCAL_COMMANDS_INLINE_NO_QUIT@
                + "."@ && final(self).state == (AppState { status_line: final(self).state.status_line, ..old(self).state }),
            event matches AppEvent::Key(k) ==> r == ControllerEffect::Nothing && old(self).key_outcome(
                *final(self),
                k,
            ),
            event == AppEvent::Submit ==> old(self).submit_outcome(*final(self), r),
            event matches AppEvent::Command(c) ==> old(self).command_outcome_of(*final(self), c, r),
            event matches AppEvent::Provider(e) ==> r == ControllerEffect::Nothing
                && old(self).provider_event_outcome(*final(self), e),
            event == AppEvent::CancelActiveTurn ==> old(self).cancel_outcome(*final(self), r),
            event is Scroll ==> r == ControllerEffect::Nothing && final(self).state == old(self).state,
            !(r is StartTurn) && !(event is Provider) ==> final(self).spec_active_turn()
                == old(self).spec_active_turn(),
    {
        match event {
            AppEvent::Key(key) => {
                self.handle_key(key);
                ControllerEffect::Nothing
            },
            AppEvent::Scroll(_) => ControllerEffect::Nothing,
            AppEvent::Submit => self.handle_submit(),
            AppEvent::Command(command) => self.handle_command(command),
            AppEvent::Provider(event) => {
                self.handle_provider_event(event);
                ControllerEffect::Nothing
            },
            AppEvent::CancelActiveTurn => self.handle_cancel_turn_request(),
            AppEvent::Tick => {
                self.state.touch_tick();
                ControllerEffect::Nothing
            },
            AppEvent::Resize(width, height) => {
                let w = u64_decimal(width as u64);
                let h = u64_decimal(height as u64);
                let mut s = concat3("Resized to ", w.as_str(), "x");
                s.append(h.as_str());
                s.append(". Enter sends. Commands: ");
                s.append(LOCAL_COMMANDS_INLINE_NO_QUIT);
                s.append(".");
                self.state.set_status(s);
                ControllerEffect::Nothing
            },
            AppEvent::Quit => {
                self.state.request_quit();
                ControllerEffect::Nothing
            },
        }
    }
}

impl AppController<MockAuthProvider, InMemoryTokenStore> {
    /// A controller with the mock auth provider, an in-memory token store and
    /// a `mock://openai` provider endpoint.
    pub fn new_for_tests() -> (r: Self)
        ensures
            r.state.running,
            r.state.turn_state == TurnState::Idle,
            r.state.input.text@ == Seq::<char>::empty(),
            r.state.input.cursor == 0,
            r.spec_active_turn() is None,
            r.spec_provider().spec_base_url() == "mock://openai"@,
            r.state.active_turn_id is None,
            r.auth.credential() == crate::auth::ResolvedCredential::SignedOut,
            history(r.state.messages@) == seq![
                (MessageRole::System, "Phase 4 streaming architecture is active. Use /auth to inspect session status; run /login only when signed out."@),
                (MessageRole::Assistant, "Try typing a prompt, then press Enter. Use /cancel to stop an active stream."@),
                (MessageRole::System, "Auth bootstrap: "@ + crate::auth::spec_report(
                    AuthStatus::SignedOut,
                    crate::auth::CredentialSource::SignedOut,
                    "chatgpt-oauth"@,
                    crate::auth::token_store::ActiveTokenStoreBackend::FileOnly,
                    None,
                )),
                (MessageRole::System, "Provider bootstrap: openai-responses (endpoint: "@ + "mock://openai"@ + ")"@),
            ],
            r.state.status_line@ == "Auth bootstrap completed ("@ + AuthStatus::SignedOut.spec_label()
                + "). Enter sends, /help lists commands."@,
    {
        let mut config = AppConfig::default();
        config.openai.base_url = owned("mock://openai");
        let r = Self::new_with_auth_and_config(AuthRuntime::for_tests(), config);
        proof {
            reveal_strlit("mock://openai");
            reveal_strlit("mock://");
            assert("mock://openai"@.take(7) =~= "mock://"@);
            assert(history(r.state.messages@) =~= history(r.state.messages@).take(2) + seq![
                history(r.state.messages@)[2],
                history(r.state.messages@)[3],
            ]);
        }
        r
    }
}

} // verus!

use maky::app::controller::{AppController, ControllerEffect};
use maky::app::event::{AppEvent, KeyCode, KeyEvent, KeyModifiers};
use maky::app::state::TurnState;
use maky::auth::provider::AuthStatus;
use maky::auth::token_store::InMemoryTokenStore;
use maky::auth::MockAuthProvider;
use maky::model::{MessageRole, ProviderEvent};
use maky::providers::openai_responses::{next_stream_event, TurnPlan};

/// Runs the controller the way the event loop does: it carries out the
/// effects and feeds the provider's stream back as events.
struct Driver {
    controller: AppController<MockAuthProvider, InMemoryTokenStore>,
    deltas: Vec<String>,
    sent: usize,
    cancelled: bool,
    pending: Option<ProviderEvent>,
}

impl Driver {
    fn new() -> Self {
        Driver {
            controller: AppController::new_for_tests(),
            deltas: Vec::new(),
            sent: 0,
            cancelled: false,
            pending: None,
        }
    }

    fn handle_event(&mut self, event: AppEvent) {
        let effect = self.controller.handle_event(event);
        match effect {
            ControllerEffect::StartTurn(request) => {
                match self.controller.provider().plan_turn(&request) {
                    Ok(TurnPlan::Stream(deltas)) => {
                        self.controller.provider_turn_started(request.turn_id.clone());
                        self.deltas = deltas;
                        self.sent = 0;
                        self.cancelled = false;
                        self.pending = None;
                    }
                    Ok(TurnPlan::Immediate(event)) => {
                        self.controller.provider_turn_started(request.turn_id.clone());
                        self.deltas = Vec::new();
                        self.pending = Some(event);
                    }
                    Err(error) => self.controller.provider_turn_failed(error),
                }
            }
            ControllerEffect::CancelTurn => self.cancelled = true,
            ControllerEffect::Logout => self.controller.complete_logout(None),
            ControllerEffect::Nothing => {}
        }
    }

    fn submit(&mut self, text: &str) {
        self.controller.state.input.text = text.to_string();
        self.controller.state.input.cursor = self.controller.state.input.text.len();
        self.handle_event(AppEvent::Submit);
    }

    fn wait_for_stream_to_finish(&mut self) {
        for _ in 0..2_000 {
            if !self.controller.state.has_active_turn() {
                return;
            }
            if let Some(event) = self.pending.take() {
                self.handle_event(AppEvent::Provider(event));
                continue;
            }
            let (event, done) = next_stream_event(&self.deltas, self.sent, self.cancelled);
            if !done {
                self.sent += 1;
            }
            self.handle_event(AppEvent::Provider(event));
        }
        panic!("provider stream did not finish in test timeout");
    }
}

#[test]
fn resize_event_updates_status_line() {
    let mut driver = Driver::new();
    driver.handle_event(AppEvent::Resize(120, 42));

    assert!(
        driver.controller.state.status_line.contains("120x42"),
        "status line should include new terminal size"
    );
}

#[test]
fn quit_event_stops_controller_loop() {
    let mut driver = Driver::new();
    driver.handle_event(AppEvent::Quit);

    assert!(!driver.controller.state.running);
}

#[test]
fn submit_adds_user_and_streamed_assistant_messages() {
    let mut driver = Driver::new();
    driver.submit("/login");

    let initial_len = driver.controller.state.messages.len();
    driver.submit("hello from streaming test");

    assert_eq!(driver.controller.state.messages.len(), initial_len + 2);
    assert_eq!(driver.controller.state.messages[initial_len].role, MessageRole::User);
    assert!(driver.controller.state.has_active_turn());
    assert_eq!(driver.controller.state.turn_state, TurnState::Streaming);

    driver.wait_for_stream_to_finish();

    assert_eq!(driver.controller.state.turn_state, TurnState::Idle);
    let last = driver.controller.state.messages.last().expect("assistant message should exist");
    assert_eq!(last.role, MessageRole::Assistant);
    assert!(last.text.contains("OpenAI streaming provider active"));
}

#[test]
fn provider_request_filters_out_system_messages() {
    let mut driver = Driver::new();
    let state = &mut driver.controller.state;
    state.messages.clear();
    state.push_message(MessageRole::System, "system bootstrap".to_string());
    state.push_message(MessageRole::User, "hello".to_string());
    state.push_message(MessageRole::Assistant, "hi there".to_string());
    state.push_message(MessageRole::System, "system warning".to_string());

    let provider_messages = driver.controller.build_provider_messages();

    assert_eq!(provider_messages.len(), 2);
    assert_eq!(provider_messages[0].role, MessageRole::User);
    assert_eq!(provider_messages[0].content, "hello");
    assert_eq!(provider_messages[1].role, MessageRole::Assistant);
    assert_eq!(provider_messages[1].content, "hi there");
}

#[test]
fn provider_messages_are_numbered_within_the_session() {
    let mut driver = Driver::new();
    let state = &mut driver.controller.state;
    state.messages.clear();
    state.session_id = "session-7".to_string();
    state.push_message(MessageRole::System, "skip".to_string());
    state.push_message(MessageRole::User, "one".to_string());
    state.push_message(MessageRole::Tool, "two".to_string());
    let messages = driver.controller.build_provider_messages();
    assert_eq!(messages.len(), 2);
    assert_eq!(messages[0].id, "session-7-0");
    assert_eq!(messages[1].id, "session-7-1");
}

#[test]
fn help_command_adds_system_help_message() {
    let mut driver = Driver::new();
    let initial_len = driver.controller.state.messages.len();
    driver.submit("/help");

    let messages = &driver.controller.state.messages;
    assert_eq!(messages.len(), initial_len + 2);
    assert_eq!(messages[initial_len].role, MessageRole::User);
    assert_eq!(messages[initial_len + 1].role, MessageRole::System);
    assert!(messages[initial_len + 1].text.contains("/cancel"));
}

#[test]
fn login_command_marks_runtime_as_signed_in() {
    let mut driver = Driver::new();
    driver.submit("/login");

    assert_eq!(driver.controller.auth.status(), AuthStatus::SignedIn);
    let last = driver.controller.state.messages.last().expect("message should exist");
    assert!(last.text.contains("Login succeeded"));
}

#[test]
fn login_headless_command_uses_headless_auth_mode() {
    let mut driver = Driver::new();
    driver.submit("/login headless");

    assert_eq!(driver.controller.auth.status(), AuthStatus::SignedIn);
    let last = driver.controller.state.messages.last().expect("message should exist");
    assert!(last.text.contains("via headless"));
}

#[test]
fn auth_command_prints_auth_report() {
    let mut driver = Driver::new();
    driver.submit("/auth");

    let last = driver.controller.state.messages.last().expect("message should exist");
    assert!(last.text.contains("Auth report"));
}

#[test]
fn logout_command_clears_oauth_session() {
    let mut driver = Driver::new();
    driver.submit("/login");
    driver.submit("/logout");

    assert_eq!(driver.controller.auth.status(), AuthStatus::SignedOut);
    let last = driver.controller.state.messages.last().expect("message should exist");
    assert!(last.text.contains("Logout completed"));
}

#[test]
fn cancel_command_stops_active_turn() {
    let mut driver = Driver::new();
    driver.submit("/login");
    driver.submit("please generate a longer streaming response so cancellation has time to happen");

    assert!(driver.controller.state.has_active_turn());

    driver.submit("/cancel");
    driver.wait_for_stream_to_finish();

    assert_eq!(driver.controller.state.turn_state, TurnState::Cancelled);
    assert!(driver.controller.state.status_line.to_ascii_lowercase().contains("cancel"));
}

#[test]
fn cancel_shortcut_routes_to_cancel_event() {
    let mut driver = Driver::new();
    driver.submit("/login");
    driver.submit("please generate a longer streaming response so shortcut cancellation can happen");

    assert!(driver.controller.state.has_active_turn());

    driver.handle_event(AppEvent::CancelActiveTurn);
    driver.wait_for_stream_to_finish();

    assert_eq!(driver.controller.state.turn_state, TurnState::Cancelled);
}

#[test]
fn second_cancel_request_is_not_repeated() {
    let mut driver = Driver::new();
    driver.submit("/login");
    driver.submit("stream something");
    assert_eq!(
        driver.controller.handle_event(AppEvent::CancelActiveTurn),
        ControllerEffect::CancelTurn
    );
    assert_eq!(driver.controller.state.turn_state, TurnState::Cancelling);
    assert_eq!(
        driver.controller.handle_event(AppEvent::CancelActiveTurn),
        ControllerEffect::Nothing
    );
    assert_eq!(
        driver.controller.state.status_line,
        "Cancel already requested for active turn."
    );
}

#[test]
fn cancel_without_active_turn_reports_it() {
    let mut driver = Driver::new();
    driver.handle_event(AppEvent::CancelActiveTurn);
    assert_eq!(driver.controller.state.status_line, "No active provider turn to cancel.");
}

#[test]
fn quit_command_routes_to_quit_event() {
    let mut driver = Driver::new();
    driver.submit("/quit");

    assert!(!driver.controller.state.running);
}

#[test]
fn unknown_command_shows_parse_failure_path() {
    let mut driver = Driver::new();
    let initial_len = driver.controller.state.messages.len();
    driver.submit("/does-not-exist");

    let messages = &driver.controller.state.messages;
    assert_eq!(messages.len(), initial_len + 2);
    assert_eq!(messages[initial_len + 1].role, MessageRole::System);
    assert!(messages[initial_len + 1].text.contains("Unknown command"));
    assert!(driver.controller.state.running);
}

#[test]
fn typing_slash_q_does_not_quit_without_submit() {
    let mut driver = Driver::new();
    let initial_len = driver.controller.state.messages.len();

    driver.handle_event(AppEvent::Key(KeyEvent::new(KeyCode::Char('/'), KeyModifiers::none())));
    driver.handle_event(AppEvent::Key(KeyEvent::new(KeyCode::Char('q'), KeyModifiers::none())));

    assert!(driver.controller.state.running);
    assert_eq!(driver.controller.state.input.text, "/q");
    assert_eq!(driver.controller.state.messages.len(), initial_len);
}

#[test]
fn submit_of_slash_q_is_unknown_command_not_quit() {
    let mut driver = Driver::new();
    let initial_len = driver.controller.state.messages.len();
    driver.submit("/q");

    let messages = &driver.controller.state.messages;
    assert!(driver.controller.state.running);
    assert_eq!(messages.len(), initial_len + 2);
    assert_eq!(messages[initial_len].role, MessageRole::User);
    assert_eq!(messages[initial_len + 1].role, MessageRole::System);
    assert!(messages[initial_len + 1].text.contains("Unknown command"));
}

#[test]
fn blank_submit_is_refused() {
    let mut driver = Driver::new();
    let initial_len = driver.controller.state.messages.len();
    driver.submit("   ");
    assert_eq!(driver.controller.state.messages.len(), initial_len);
    assert_eq!(driver.controller.state.status_line, "Input is empty.");
}

#[test]
fn prompt_without_credentials_reports_provider_error() {
    let mut driver = Driver::new();
    driver.submit("hello");
    driver.wait_for_stream_to_finish();
    assert_eq!(driver.controller.state.turn_state, TurnState::Idle);
    let texts: Vec<&str> = driver
        .controller
        .state
        .messages
        .iter()
        .map(|m| m.text.as_str())
        .collect();
    assert!(texts.iter().any(|t| t.starts_with("Provider error: missing access token")));
    assert_eq!(
        driver.controller.state.status_line,
        "Provider error. See logs and system messages."
    );
}

#[test]
fn startup_messages_report_auth_and_provider() {
    let driver = Driver::new();
    let messages = &driver.controller.state.messages;
    assert!(messages[2].text.starts_with("Auth bootstrap: Auth report | "));
    assert_eq!(
        messages.last().expect("provider message").text,
        "Provider bootstrap: openai-responses (endpoint: mock://openai)"
    );
}

#[test]
fn command_errors_are_reported_verbatim() {
    let mut driver = Driver::new();
    let initial_len = driver.controller.state.messages.len();
    driver.submit("  /nope now ");
    driver.submit("/help me please");
    let messages = &driver.controller.state.messages;
    assert_eq!(messages.len(), initial_len + 4);
    assert_eq!(messages[initial_len].text, "  /nope now ");
    assert_eq!(
        messages[initial_len + 1].text,
        "Command error: Unknown command `/nope`. Try /help."
    );
    assert_eq!(
        messages[initial_len + 3].text,
        "Command error: Command `/help` does not accept arguments: me please"
    );
    assert_eq!(
        driver.controller.state.status_line,
        "Command failed. Use /help for available commands."
    );
    assert!(driver.controller.state.input.text.is_empty());
}

fn press(driver: &mut Driver, code: KeyCode) {
    driver.handle_event(AppEvent::Key(KeyEvent::new(code, KeyModifiers::none())));
}

#[test]
fn editing_keys_move_and_delete_by_characters() {
    let mut driver = Driver::new();
    for c in "héllo".chars() {
        press(&mut driver, KeyCode::Char(c));
    }
    press(&mut driver, KeyCode::Left);
    press(&mut driver, KeyCode::Left);
    press(&mut driver, KeyCode::Backspace);
    assert_eq!(driver.controller.state.input.text, "hélo");
    press(&mut driver, KeyCode::Backspace);
    assert_eq!(driver.controller.state.input.text, "hlo");
    assert_eq!(driver.controller.state.input.cursor, 1);
    press(&mut driver, KeyCode::Delete);
    assert_eq!(driver.controller.state.input.text, "ho");
    press(&mut driver, KeyCode::Home);
    press(&mut driver, KeyCode::Left);
    assert_eq!(driver.controller.state.input.cursor, 0);
    press(&mut driver, KeyCode::Char('x'));
    assert_eq!(driver.controller.state.input.text, "xho");
    press(&mut driver, KeyCode::End);
    press(&mut driver, KeyCode::Right);
    press(&mut driver, KeyCode::Delete);
    assert_eq!(driver.controller.state.input.cursor, 3);
    assert_eq!(driver.controller.state.input.text, "xho");
    driver.handle_event(AppEvent::Key(KeyEvent::new(KeyCode::Char('z'), KeyModifiers::control())));
    assert_eq!(driver.controller.state.input.text, "xho");
}

#[test]
fn test_controller_reports_its_bootstrap() {
    let controller = AppController::new_for_tests();
    assert_eq!(
        controller.state.status_line,
        "Auth bootstrap completed (signed-out). Enter sends, /help lists commands."
    );
    let messages = &controller.state.messages;
    assert_eq!(messages.len(), 4);
    assert!(messages[2].text.starts_with("Auth bootstrap: Auth report | status: signed-out"));
    assert_eq!(
        messages[3].text,
        "Provider bootstrap: openai-responses (endpoint: mock://openai)"
    );
    assert!(controller.state.session_id.starts_with("session-"));
}

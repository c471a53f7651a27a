use maky::agent::session::AgentSession;
use maky::agent::turn::TurnOutcome;
use maky::model::{Message, MessageRole, ProviderEvent, SessionMeta};
use maky::providers::openai_responses::{next_stream_event, OpenAiResponsesProvider, TurnPlan};
use maky::providers::provider::{ProviderAuthContext, ProviderTurnRequest, TurnHandle};
use maky::storage::sessions::{normalized_model, session_event_type, signed_to_unsigned_timestamp, SessionEvent};

fn request(access_token: Option<&str>, messages: Vec<Message>) -> ProviderTurnRequest {
    ProviderTurnRequest {
        turn_id: "t-1".to_string(),
        session_id: "s".to_string(),
        model: "m".to_string(),
        variant: "low".to_string(),
        messages,
        auth: ProviderAuthContext {
            access_token: access_token.map(str::to_string),
            source: if access_token.is_some() { "oauth-session" } else { "signed-out" }.to_string(),
            status: if access_token.is_some() { "signed-in" } else { "signed-out" }.to_string(),
            provider_id: "chatgpt-oauth".to_string(),
        },
    }
}

fn user(text: &str) -> Message {
    Message { id: "1".to_string(), role: MessageRole::User, content: text.to_string(), timestamp: 0 }
}

#[test]
fn mock_provider_streams_an_echo_word_by_word() {
    let provider = OpenAiResponsesProvider::new("mock://openai".to_string());
    match provider.plan_turn(&request(Some("tok"), vec![user("hi there")])).expect("plan") {
        TurnPlan::Stream(deltas) => {
            assert_eq!(deltas.concat(), "OpenAI streaming provider active via mock://openai. model=m variant=low. Echo: hi there ");
            assert_eq!(deltas[0], "OpenAI ");
        }
        other => panic!("unexpected {other:?}"),
    }
}

#[test]
fn provider_without_token_reports_an_error_event() {
    let provider = OpenAiResponsesProvider::new("mock://openai".to_string());
    assert_eq!(
        provider.plan_turn(&request(None, vec![user("x")])),
        Ok(TurnPlan::Immediate(ProviderEvent::Error(
            "missing access token for provider request (source=signed-out, status=signed-out, provider=chatgpt-oauth). Run /login to sign in.".to_string()
        )))
    );
    assert_eq!(
        provider.plan_turn(&request(Some("tok"), Vec::new())),
        Err("provider request must include at least one message".to_string())
    );
}

#[test]
fn stream_events_end_with_completion_or_cancellation() {
    let deltas = vec!["a ".to_string()];
    assert_eq!(next_stream_event(&deltas, 0, false), (ProviderEvent::TextDelta("a ".to_string()), false));
    assert_eq!(next_stream_event(&deltas, 1, false), (ProviderEvent::Completed, true));
    assert_eq!(next_stream_event(&deltas, 0, true), (ProviderEvent::Cancelled, true));
}

#[test]
fn turn_handle_cancels_once() {
    let handle = TurnHandle::new("t-9".to_string());
    assert_eq!(handle.turn_id(), "t-9");
    assert!(!handle.is_cancelled());
    assert!(handle.cancel());
    assert!(!handle.cancel());
    assert!(handle.is_cancelled());
}

#[test]
fn agent_session_and_turn_outcome() {
    let meta = SessionMeta {
        session_id: "s".to_string(),
        created_at: 1,
        updated_at: 1,
        model: "m".to_string(),
    };
    let mut session = AgentSession::new(meta);
    session.append_message("1".to_string(), MessageRole::User, "hi".to_string(), 5);
    assert_eq!(session.messages.len(), 1);
    assert_eq!(session.messages[0].content, "hi");
    let outcome = TurnOutcome::completed_with_text("done".to_string());
    assert_eq!(
        outcome.events,
        vec![ProviderEvent::TextDelta("done".to_string()), ProviderEvent::Completed]
    );
}

#[test]
fn session_storage_helpers() {
    assert_eq!(session_event_type(&SessionEvent::Status("x".to_string())), "status");
    assert_eq!(normalized_model("  "), "unknown");
    assert_eq!(normalized_model("m"), "m");
    assert_eq!(signed_to_unsigned_timestamp(5), Ok(5));
    assert_eq!(
        signed_to_unsigned_timestamp(-1),
        Err("timestamp out of range: -1".to_string())
    );
}

#[test]
fn non_oauth_credentials_are_told_to_log_in() {
    let provider = OpenAiResponsesProvider::new("mock://openai".to_string());
    let mut req = request(Some("sk-test"), vec![user("x")]);
    req.auth.source = "api-key".to_string();
    assert_eq!(
        provider.plan_turn(&req),
        Ok(TurnPlan::Immediate(ProviderEvent::Error(
            "an OAuth session is required for provider requests (source=api-key). Run /login to sign in with ChatGPT.".to_string()
        )))
    );
}

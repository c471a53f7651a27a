use maky::app::markdown::{Color, StyledLine, StyledSpan, TextStyle};
use maky::app::state::{AppState, ChatMessage, InputState};
use maky::app::ui::{
    build_history_lines, build_model_variant_line, cursor_position, header_text, input_title,
    role_prefix, total_wrapped_history_rows,
};
use maky::model::MessageRole;

fn line_text(line: &StyledLine) -> String {
    line.spans.iter().map(|span| span.content.as_str()).collect::<String>()
}

fn message(role: MessageRole, text: &str, timestamp: u64) -> ChatMessage {
    ChatMessage { role, text: text.to_string(), timestamp }
}

#[test]
fn history_lines_use_chat_style_prefixes() {
    let messages = vec![
        message(MessageRole::User, "hello", 1),
        message(MessageRole::Assistant, "hi", 2),
        message(MessageRole::System, "warning", 3),
    ];

    let lines = build_history_lines(&messages);

    assert_eq!(line_text(&lines[0]), "> hello");
    assert_eq!(line_text(&lines[1]), "");
    assert_eq!(line_text(&lines[2]), ". hi");
    assert_eq!(line_text(&lines[3]), "");
    assert_eq!(line_text(&lines[4]), "[system] warning");
}

#[test]
fn history_lines_indent_multiline_messages() {
    let messages = vec![message(MessageRole::Assistant, "line one\nline two", 1)];

    let lines = build_history_lines(&messages);

    assert_eq!(line_text(&lines[0]), ". line one");
    assert_eq!(line_text(&lines[1]), "  line two");
}

#[test]
fn history_lines_render_assistant_markdown_lists_and_code_fences() {
    let messages = vec![message(
        MessageRole::Assistant,
        "- item one\n- item two\n\n```rust\nlet value = 42;\n```",
        1,
    )];

    let lines = build_history_lines(&messages);

    assert_eq!(line_text(&lines[0]), ". - item one");
    assert_eq!(line_text(&lines[1]), "  - item two");
    assert_eq!(line_text(&lines[2]), "  ");
    assert_eq!(line_text(&lines[3]), "      let value = 42;");
}

#[test]
fn plain_messages_keep_each_line_after_the_prefix() {
    let messages = vec![message(MessageRole::Tool, "a\r\nb\n", 1)];
    let lines = build_history_lines(&messages);
    assert_eq!(lines.len(), 2);
    assert_eq!(line_text(&lines[0]), "[tool] a");
    assert_eq!(line_text(&lines[1]), "       b");
    assert_eq!(role_prefix(MessageRole::Tool), "[tool] ");
}

#[test]
fn empty_history_shows_a_hint() {
    let lines = build_history_lines(&Vec::new());
    assert_eq!(lines.len(), 1);
    assert_eq!(line_text(&lines[0]), "No messages yet.");
    assert_eq!(lines[0].spans[0].style.fg, Some(Color::DarkGray));
}

#[test]
fn model_variant_line_shows_current_selection() {
    let state = AppState {
        model: "openai/gpt-5.3-codex".to_string(),
        variant: "xhigh".to_string(),
        session_id: "session-123".to_string(),
        session_state: "restored".to_string(),
        ..AppState::default()
    };

    let line = build_model_variant_line(&state);

    assert_eq!(
        line_text(&line),
        "model: openai/gpt-5.3-codex | variant: xhigh | session: session-123 | state: restored"
    );
}

#[test]
fn total_wrapped_history_rows_counts_wrapped_content() {
    let lines = vec![StyledLine {
        spans: vec![StyledSpan {
            content: "this is a long wrapped line".to_string(),
            style: TextStyle::plain(),
        }],
    }];

    let wrapped_rows = total_wrapped_history_rows(&lines, 8);
    let unwrapped_rows = total_wrapped_history_rows(&lines, 80);

    assert!(wrapped_rows > unwrapped_rows);
    assert_eq!(unwrapped_rows, 1);
    assert_eq!(wrapped_rows, 4);
    assert_eq!(total_wrapped_history_rows(&lines, 0), 1);
    let empty = vec![StyledLine { spans: Vec::new() }];
    assert_eq!(total_wrapped_history_rows(&empty, 10), 1);
}

#[test]
fn header_and_input_title_texts() {
    let mut state = AppState::default();
    state.status_line = "Ready".to_string();
    assert_eq!(header_text(&state, 12), "Ready | turn: idle | last tick 12 ms ago");
    assert_eq!(
        input_title(),
        "Input (Enter sends, /help, /login [browser|headless], /auth, /logout, /cancel, /quit | Ctrl+X cancels)"
    );
}

#[test]
fn cursor_stays_inside_the_input_box() {
    let input = InputState { text: "añb".to_string(), cursor: 3 };
    assert_eq!(cursor_position(&input, 0, 10, 20), (3, 11));
    assert_eq!(cursor_position(&input, 5, 0, 4), (7, 1));
    assert_eq!(cursor_position(&input, u16::MAX, u16::MAX, 20), (u16::MAX, u16::MAX));
}

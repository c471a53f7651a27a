use maky::app::state::{
    parse_local_command, CommandParseError, InputState, LocalCommand, LoginCommandMode,
};

#[test]
fn parses_known_local_command() {
    assert_eq!(parse_local_command("/help"), Some(Ok(LocalCommand::Help)));
    assert_eq!(
        parse_local_command("/login"),
        Some(Ok(LocalCommand::Login(LoginCommandMode::Browser)))
    );
    assert_eq!(
        parse_local_command("/login browser"),
        Some(Ok(LocalCommand::Login(LoginCommandMode::Browser)))
    );
    assert_eq!(
        parse_local_command("/login headless"),
        Some(Ok(LocalCommand::Login(LoginCommandMode::Headless)))
    );
    assert_eq!(parse_local_command("/auth"), Some(Ok(LocalCommand::Auth)));
    assert_eq!(parse_local_command("/logout"), Some(Ok(LocalCommand::Logout)));
    assert_eq!(parse_local_command("/cancel"), Some(Ok(LocalCommand::Cancel)));
}

#[test]
fn command_with_arguments_is_rejected() {
    let result = parse_local_command("/quit now").expect("slash command should be parsed");
    assert!(matches!(
        result,
        Err(CommandParseError::UnexpectedArguments { command: "/quit", .. })
    ));
}

#[test]
fn unknown_local_command_is_rejected() {
    let result = parse_local_command("/unknown").expect("slash command should be parsed");
    assert!(matches!(result, Err(CommandParseError::UnknownCommand(_))));
}

#[test]
fn non_command_input_is_not_parsed_as_command() {
    assert_eq!(parse_local_command("hello"), None);
}

#[test]
fn input_state_supports_insert_and_cursor_moves() {
    let mut input = InputState::default();
    input.insert_char('h');
    input.insert_char('i');
    input.move_left();
    input.insert_char('!');

    assert_eq!(input.text, "h!i");
    assert_eq!(input.cursor, 2);
}

#[test]
fn backspace_removes_character_before_cursor() {
    let mut input = InputState { text: "rust".to_string(), cursor: 4 };

    assert!(input.backspace());
    assert_eq!(input.text, "rus");
    assert_eq!(input.cursor, 3);
}

#[test]
fn backspace_after_insert_restores_the_input() {
    let mut input = InputState { text: "héllo".to_string(), cursor: 3 };
    input.insert_char('ß');
    assert_eq!(input.text, "héßllo");
    assert_eq!(input.cursor, 5);
    assert!(input.backspace());
    assert_eq!(input.text, "héllo");
    assert_eq!(input.cursor, 3);
}

#[test]
fn cursor_moves_by_whole_characters() {
    let mut input = InputState { text: "añb".to_string(), cursor: 0 };
    assert!(input.move_right());
    assert_eq!(input.cursor, 1);
    assert!(input.move_right());
    assert_eq!(input.cursor, 3);
    assert!(input.move_right());
    assert_eq!(input.cursor, 4);
    assert!(!input.move_right());
    assert!(input.move_left());
    assert_eq!(input.cursor, 3);
    assert_eq!(input.cursor_chars(), 2);
    input.move_home();
    assert_eq!(input.cursor, 0);
    assert!(!input.move_left());
    assert!(!input.backspace());
    input.move_end();
    assert_eq!(input.cursor, 4);
    assert!(!input.delete());
}

#[test]
fn delete_removes_character_at_cursor() {
    let mut input = InputState { text: "añb".to_string(), cursor: 1 };
    assert!(input.delete());
    assert_eq!(input.text, "ab");
    assert_eq!(input.cursor, 1);
}

#[test]
fn take_text_empties_the_input() {
    let mut input = InputState { text: "hello".to_string(), cursor: 5 };
    assert_eq!(input.take_text(), "hello");
    assert_eq!(input.text, "");
    assert_eq!(input.cursor, 0);
}

#[test]
fn parse_errors_describe_the_problem() {
    let unknown = parse_local_command("  /nope  ").expect("slash command");
    assert_eq!(
        unknown.unwrap_err().message(),
        "Unknown command `/nope`. Try /help."
    );
    let args = parse_local_command("/help   me  please").expect("slash command");
    assert_eq!(
        args.unwrap_err().message(),
        "Command `/help` does not accept arguments: me please"
    );
    assert_eq!(
        parse_local_command("/login sideways"),
        Some(Err(CommandParseError::UnexpectedArguments {
            command: "/login",
            args: "sideways".to_string()
        }))
    );
    assert_eq!(parse_local_command("   "), None);
    assert_eq!(parse_local_command("  /quit "), Some(Ok(LocalCommand::Quit)));
}

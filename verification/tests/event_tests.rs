use maky::app::event::{
    is_cancel_key, is_quit_key, is_submit_key, map_terminal_event,
    scroll_direction_from_mouse_kind, AppEvent, KeyCode, KeyEvent, KeyEventKind, KeyModifiers,
    MouseEventKind, ScrollDirection, TerminalEvent,
};

#[test]
fn esc_is_quit_key() {
    let key = KeyEvent::new(KeyCode::Esc, KeyModifiers::none());
    assert!(is_quit_key(&key));
}

#[test]
fn ctrl_c_is_quit_key() {
    let key = KeyEvent::new(KeyCode::Char('c'), KeyModifiers::control());
    assert!(is_quit_key(&key));
}

#[test]
fn ctrl_q_is_not_quit_key() {
    let key = KeyEvent::new(KeyCode::Char('q'), KeyModifiers::control());
    assert!(!is_quit_key(&key));
}

#[test]
fn plain_q_is_not_quit_key() {
    let key = KeyEvent::new(KeyCode::Char('q'), KeyModifiers::none());
    assert!(!is_quit_key(&key));
}

#[test]
fn uppercase_q_is_not_quit_key() {
    let key = KeyEvent::new(KeyCode::Char('Q'), KeyModifiers::shift());
    assert!(!is_quit_key(&key));
}

#[test]
fn enter_is_submit_key() {
    let key = KeyEvent::new(KeyCode::Enter, KeyModifiers::none());
    assert!(is_submit_key(&key));
}

#[test]
fn ctrl_x_is_cancel_key() {
    let key = KeyEvent::new(KeyCode::Char('x'), KeyModifiers::control());
    assert!(is_cancel_key(&key));
}

#[test]
fn plain_x_is_not_cancel_key() {
    let key = KeyEvent::new(KeyCode::Char('x'), KeyModifiers::none());
    assert!(!is_cancel_key(&key));
}

#[test]
fn mouse_scroll_up_maps_to_scroll_direction_up() {
    assert_eq!(
        scroll_direction_from_mouse_kind(MouseEventKind::ScrollUp),
        Some(ScrollDirection::Up)
    );
}

#[test]
fn mouse_moved_does_not_map_to_scroll_direction() {
    assert_eq!(scroll_direction_from_mouse_kind(MouseEventKind::Moved), None);
}

#[test]
fn terminal_events_map_to_app_events() {
    let press = |code, modifiers| TerminalEvent::Key(KeyEvent::new(code, modifiers));
    assert_eq!(
        map_terminal_event(press(KeyCode::Char('C'), KeyModifiers::control())),
        Some(AppEvent::Quit)
    );
    assert_eq!(
        map_terminal_event(press(KeyCode::Char('X'), KeyModifiers::control())),
        Some(AppEvent::CancelActiveTurn)
    );
    assert_eq!(
        map_terminal_event(press(KeyCode::Enter, KeyModifiers::none())),
        Some(AppEvent::Submit)
    );
    let plain = KeyEvent::new(KeyCode::Char('a'), KeyModifiers::none());
    assert_eq!(map_terminal_event(TerminalEvent::Key(plain)), Some(AppEvent::Key(plain)));
    let mut release = KeyEvent::new(KeyCode::Enter, KeyModifiers::none());
    release.kind = KeyEventKind::Release;
    assert_eq!(map_terminal_event(TerminalEvent::Key(release)), None);
    assert_eq!(
        map_terminal_event(TerminalEvent::Mouse(MouseEventKind::ScrollDown)),
        Some(AppEvent::Scroll(ScrollDirection::Down))
    );
    assert_eq!(map_terminal_event(TerminalEvent::Mouse(MouseEventKind::Drag)), None);
    assert_eq!(
        map_terminal_event(TerminalEvent::Resize(80, 24)),
        Some(AppEvent::Resize(80, 24))
    );
    assert_eq!(map_terminal_event(TerminalEvent::Other), None);
}

//! Application events and the classification of terminal input.
use vstd::prelude::*;

use crate::app::state::LocalCommand;
use crate::model::ProviderEvent;

verus! {

/// A key on the keyboard.
#[derive(Debug, Clone, Copy, PartialEq, Eq, Structural)]
pub enum KeyCode {
    Backspace,
    Enter,
    Left,
    Right,
    Up,
    Down,
    Home,
    End,
    PageUp,
    PageDown,
    Tab,
    BackTab,
    Delete,
    Insert,
    F(u8),
    Char(char),
    Null,
    Esc,
    Other,
}

/// The modifier keys held during a key event.
#[derive(Debug, Clone, Copy, PartialEq, Eq, Structural)]
pub struct KeyModifiers {
    pub shift: bool,
    pub control: bool,
    pub alt: bool,
    pub super_key: bool,
    pub hyper: bool,
    pub meta: bool,
}

impl KeyModifiers {
    pub fn none() -> (r: KeyModifiers)
        ensures
            r == (KeyModifiers {
        shift: false,
        control: false,
        alt: false,
        super_key: false,
        hyper: false,
        meta: false,
    }),
    {
        KeyModifiers {
        shift: false,
        control: false,
        alt: false,
        super_key: false,
        hyper: false,
        meta: false,
    }
    }

    pub fn shift() -> (r: KeyModifiers)
        ensures
            r == (KeyModifiers {
        shift: true,
        control: false,
        alt: false,
        super_key: false,
        hyper: false,
        meta: false,
    }),
    {
        KeyModifiers {
        shift: true,
        control: false,
        alt: false,
        super_key: false,
        hyper: false,
        meta: false,
    }
    }

    pub fn control() -> (r: KeyModifiers)
        ensures
            r == (KeyModifiers {
        shift: false,
        control: true,
        alt: false,
        super_key: false,
        hyper: false,
        meta: false,
    }),
    {
        KeyModifiers {
        shift: false,
        control: true,
        alt: false,
        super_key: false,
        hyper: false,
        meta: false,
    }
    }

    pub fn alt() -> (r: KeyModifiers)
        ensures
            r == (KeyModifiers {
        shift: false,
        control: false,
        alt: true,
        super_key: false,
        hyper: false,
        meta: false,
    }),
    {
        KeyModifiers {
        shift: false,
        control: false,
        alt: true,
        super_key: false,
        hyper: false,
        meta: false,
    }
    }

    pub open spec fn spec_is_empty(self) -> bool {
        !self.shift && !self.control && !self.alt && !self.super_key && !self.hyper && !self.meta
    }

    pub fn is_empty(&self) -> (r: bool)
        ensures
            r == self.spec_is_empty(),
    {
        !self.shift && !self.control && !self.alt && !self.super_key && !self.hyper && !self.meta
    }

    /// Only Shift is held.
    pub open spec fn spec_is_shift_only(self) -> bool {
        self.shift && !self.control && !self.alt && !self.super_key && !self.hyper && !self.meta
    }
}

/// Whether a key was pressed, repeated or released.
#[derive(Debug, Clone, Copy, PartialEq, Eq, Structural)]
pub enum KeyEventKind {
    Press,
    Repeat,
    Release,
}

/// A key event.
#[derive(Debug, Clone, Copy, PartialEq, Eq, Structural)]
pub struct KeyEvent {
    pub code: KeyCode,
    pub modifiers: KeyModifiers,
    pub kind: KeyEventKind,
}

impl KeyEvent {
    /// A key press.
    pub fn new(code: KeyCode, modifiers: KeyModifiers) -> (r: Self)
        ensures
            r == (KeyEvent { code, modifiers, kind: KeyEventKind::Press }),
    {
        KeyEvent { code, modifiers, kind: KeyEventKind::Press }
    }
}

/// Kinds of mouse events.
#[derive(Debug, Clone, Copy, PartialEq, Eq, Structural)]
pub enum MouseEventKind {
    Down,
    Up,
    Drag,
    Moved,
    ScrollDown,
    ScrollUp,
    ScrollLeft,
    ScrollRight,
}

/// An event read from the terminal.
#[derive(Debug, Clone, Copy, PartialEq, Eq, Structural)]
pub enum TerminalEvent {
    Key(KeyEvent),
    Mouse(MouseEventKind),
    Resize(u16, u16),
    Other,
}

/// Events the controller handles.
#[derive(Debug, Clone, PartialEq, Eq)]
pub enum AppEvent {
    Key(KeyEvent),
    Scroll(ScrollDirection),
    Submit,
    Command(LocalCommand),
    Provider(ProviderEvent),
    CancelActiveTurn,
    Tick,
    Resize(u16, u16),
    Quit,
}

#[derive(Debug, Clone, Copy, PartialEq, Eq, Structural)]
pub enum ScrollDirection {
    Up,
    Down,
}

/// Enter submits the input.
pub fn is_submit_key(key: &KeyEvent) -> (r: bool)
    ensures
        r == (key.code == KeyCode::Enter),
{
    key.code == KeyCode::Enter
}

/// Esc, and Ctrl+C in either case, quit.
pub fn is_quit_key(key: &KeyEvent) -> (r: bool)
    ensures
        r == (key.code == KeyCode::Esc || ((key.code == KeyCode::Char('c') || key.code
            == KeyCode::Char('C')) && key.modifiers.control)),
{
    match key.code {
        KeyCode::Esc => true,
        KeyCode::Char(c) => (c == 'c' || c == 'C') && key.modifiers.control,
        _ => false,
    }
}

/// Ctrl+X, in either case, cancels the active turn.
pub fn is_cancel_key(key: &KeyEvent) -> (r: bool)
    ensures
        r == ((key.code == KeyCode::Char('x') || key.code == KeyCode::Char('X'))
            && key.modifiers.control),
{
    match key.code {
        KeyCode::Char(c) => (c == 'x' || c == 'X') && key.modifiers.control,
        _ => false,
    }
}

/// The wheel scrolls the history.
pub fn scroll_direction_from_mouse_kind(kind: MouseEventKind) -> (r: Option<ScrollDirection>)
    ensures
        r == match kind {
            MouseEventKind::ScrollUp => Some(ScrollDirection::Up),
            MouseEventKind::ScrollDown => Some(ScrollDirection::Down),
            _ => None::<ScrollDirection>,
        },
{
    match kind {
        MouseEventKind::ScrollUp => Some(ScrollDirection::Up),
        MouseEventKind::ScrollDown => Some(ScrollDirection::Down),
        _ => None,
    }
}

/// The application event a terminal event stands for: key presses are
/// checked for quit, then cancel, then submit; releases and repeats, other
/// mouse events and anything else are ignored.
pub fn map_terminal_event(event: TerminalEvent) -> (r: Option<AppEvent>)
    ensures
        r == match event {
            TerminalEvent::Key(key) => if key.kind != KeyEventKind::Press {
                None
            } else if key.code == KeyCode::Esc || ((key.code == KeyCode::Char('c') || key.code
                == KeyCode::Char('C')) && key.modifiers.control) {
                Some(AppEvent::Quit)
            } else if (key.code == KeyCode::Char('x') || key.code == KeyCode::Char('X'))
                && key.modifiers.control {
                Some(AppEvent::CancelActiveTurn)
            } else if key.code == KeyCode::Enter {
                Some(AppEvent::Submit)
            } else {
                Some(AppEvent::Key(key))
            },
            TerminalEvent::Mouse(kind) => match kind {
                MouseEventKind::ScrollUp => Some(AppEvent::Scroll(ScrollDirection::Up)),
                MouseEventKind::ScrollDown => Some(AppEvent::Scroll(ScrollDirection::Down)),
                _ => None,
            },
            TerminalEvent::Resize(w, h) => Some(AppEvent::Resize(w, h)),
            TerminalEvent::Other => None,
        },
{
    match event {
        TerminalEvent::Key(key) => {
            if key.kind != KeyEventKind::Press {
                return None;
            }
            if is_quit_key(&key) {
                return Some(AppEvent::Quit);
            }
            if is_cancel_key(&key) {
                return Some(AppEvent::CancelActiveTurn);
            }
            if is_submit_key(&key) {
                return Some(AppEvent::Submit);
            }
            Some(AppEvent::Key(key))
        },
        TerminalEvent::Mouse(kind) => match scroll_direction_from_mouse_kind(kind) {
            Some(d) => Some(AppEvent::Scroll(d)),
            None => None,
        },
        TerminalEvent::Resize(w, h) => Some(AppEvent::Resize(w, h)),
        TerminalEvent::Other => None,
    }
}

} // verus!

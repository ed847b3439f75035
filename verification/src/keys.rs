//! Key presses as the session reads them.

use vstd::prelude::*;

verus! {

/// The key of a key event. Keys that the session never acts on are `Other`.
#[derive(Debug, Clone, Copy, PartialEq, Eq, Structural)]
pub enum KeyCode {
    Backspace,
    Enter,
    Up,
    Down,
    Tab,
    /// Reverse tab, which terminals send for Shift+Tab.
    BackTab,
    Esc,
    Char(char),
    Other,
}

/// Whether the key went down, is held, or came up.
#[derive(Debug, Clone, Copy, PartialEq, Eq, Structural)]
pub enum KeyEventKind {
    Press,
    Repeat,
    Release,
}

/// One event from the keyboard.
#[derive(Debug, Clone, Copy, PartialEq, Eq, Structural)]
pub struct KeyEvent {
    pub code: KeyCode,
    /// Whether Shift was held.
    pub shift: bool,
    pub kind: KeyEventKind,
}

impl KeyEvent {
    /// A press of `code` without Shift.
    pub fn press(code: KeyCode) -> (key: KeyEvent)
        ensures
            key == (KeyEvent { code, shift: false, kind: KeyEventKind::Press }),
    {
        KeyEvent { code, shift: false, kind: KeyEventKind::Press }
    }

    /// A key event as the terminal reports it.
    pub fn new(code: KeyCode, shift: bool, kind: KeyEventKind) -> (key: KeyEvent)
        ensures
            key == (KeyEvent { code, shift, kind }),
    {
        KeyEvent { code, shift, kind }
    }

    /// Whether the key closes the error overlay: Enter, Esc or Space.
    pub open spec fn dismisses(self) -> bool {
        self.code == KeyCode::Enter || self.code == KeyCode::Esc || self.code == KeyCode::Char(' ')
    }

    /// Whether the key closes the error overlay: Enter, Esc or Space.
    pub fn is_dismissal(&self) -> (dismissal: bool)
        ensures
            dismissal == self.dismisses(),
    {
        match self.code {
            KeyCode::Enter => true,
            KeyCode::Esc => true,
            KeyCode::Char(c) => c == ' ',
            _ => false,
        }
    }
}

} // verus!

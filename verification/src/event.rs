//! What the terminal reports to the editor, and what the editor asks of the
//! program that drives the terminal.

use vstd::prelude::*;

verus! {

/// The key that was pressed.
#[derive(Clone, Copy, Debug, PartialEq, Eq)]
pub enum KeyCode {
    /// A character key. A line feed stands for the return key.
    Char(char),
    /// The return key.
    Enter,
    Up,
    Down,
    Left,
    Right,
    Home,
    End,
    PageUp,
    PageDown,
    /// Any key the editor has no use for.
    Other,
}

/// A key press together with the state of the control modifier.
#[derive(Clone, Copy, Debug, PartialEq, Eq)]
pub struct KeyEvent {
    pub code: KeyCode,
    pub ctrl: bool,
}

/// An input event.
#[derive(Clone, Copy, Debug, PartialEq, Eq)]
pub enum Event {
    /// A key was pressed.
    Key(KeyEvent),
    /// The terminal now has this many columns and rows.
    Resize(u16, u16),
}

/// What the driving loop has to do after the editor has taken an event.
#[derive(Clone, Copy, Debug, PartialEq, Eq)]
pub enum Action {
    /// Draw the current frame, then wait for the next event.
    Render,
    /// Nothing on screen changed: wait for the next event.
    Wait,
    /// Leave the terminal's editing mode and stop.
    Quit,
}

impl KeyCode {
    /// Whether the key moves the cursor.
    pub open spec fn is_navigation(self) -> bool {
        self is Up || self is Down || self is Left || self is Right || self is Home || self is End
            || self is PageUp || self is PageDown
    }

    /// Whether the key is one of the four arrows.
    pub open spec fn is_arrow(self) -> bool {
        self is Up || self is Down || self is Left || self is Right
    }

    /// Whether the key moves the cursor to another line without ever meaning
    /// to change its column.
    pub open spec fn is_vertical(self) -> bool {
        self is Up || self is Down || self is PageUp || self is PageDown
    }
}

/// Whether what arrived in one turn of the loop is the key combination that
/// ends the session: control with `c`.
pub open spec fn is_quit(event: Option<Event>) -> bool {
    event == Some(Event::Key(KeyEvent { code: KeyCode::Char('c'), ctrl: true }))
}

/// Whether typing `ch` puts a character into the text. Line feeds, carriage
/// returns and tabs do not: they would break the rule of one column per
/// character.
pub open spec fn is_printable(ch: char) -> bool {
    ch != '\n' && ch != '\r' && ch != '\t'
}

} // verus!

//! The mathematical model of a window over the buffer.
//!
//! Three coordinate spaces meet here. A buffer coordinate `(line, column)`
//! names a place in the text. The offsets `(row_off, col_off)` are the buffer
//! coordinate shown in the top-left cell of the screen. A screen coordinate
//! `(col, row)` is a buffer coordinate minus the offsets. Every operation of
//! the editor is a function from one `ViewState` to the next, written out
//! below; the executable types promise to follow them.

use vstd::prelude::*;
use crate::buffer::{editable_at, line_length, with_char, with_split};
use crate::event::KeyCode;

verus! {

/// The smaller of two numbers.
pub open spec fn smaller(a: nat, b: nat) -> nat {
    if a <= b {
        a
    } else {
        b
    }
}

/// `a - b` where that is not negative, else zero.
pub open spec fn minus(a: nat, b: nat) -> nat {
    if a >= b {
        (a - b) as nat
    } else {
        0
    }
}

/// The offset to scroll to along one axis.
///
/// `position` is where the cursor stands, `offset` the first position now
/// shown and `extent` how many positions fit on screen. The offset moves
/// only where the cursor would otherwise be off screen, and then only as
/// far as needed to bring it to the nearest edge.
pub open spec fn scroll_offset(position: nat, offset: nat, extent: nat) -> nat {
    if position < offset {
        position
    } else if position >= offset + extent {
        minus(position + 1, extent)
    } else {
        offset
    }
}

/// Everything the window knows: the text, the cursor, the offsets and the
/// size of the terminal.
#[verifier::ext_equal]
pub struct ViewState {
    /// Name of the file the session was started for, if one was given.
    pub file: Option<Seq<char>>,
    /// Whether the text has been loaded. It is loaded once: an empty file
    /// leaves no lines but counts as loaded all the same.
    pub loaded: bool,
    /// The text, line by line.
    pub lines: Seq<Seq<char>>,
    /// Line the cursor is on.
    pub line: nat,
    /// Column the cursor is at; the end of the line counts as a column.
    pub column: nat,
    /// First line shown.
    pub row_off: nat,
    /// First column shown.
    pub col_off: nat,
    /// Columns of the terminal.
    pub width: nat,
    /// Rows of the terminal.
    pub height: nat,
}

impl ViewState {
    /// The state a session starts in: nothing loaded, no text, the cursor and
    /// the offsets at the origin.
    pub open spec fn initial(file: Option<Seq<char>>, width: nat, height: nat) -> ViewState {
        ViewState {
            file,
            loaded: false,
            lines: Seq::empty(),
            line: 0,
            column: 0,
            row_off: 0,
            col_off: 0,
            width,
            height,
        }
    }

    /// A terminal without rows or without columns shows nothing.
    pub open spec fn degenerate(self) -> bool {
        self.width == 0 || self.height == 0
    }

    /// Index of the last line; zero for a buffer without lines.
    pub open spec fn last_line(self) -> nat {
        minus(self.lines.len(), 1)
    }

    /// Length of line `line`; zero where there is no such line.
    pub open spec fn length_of(self, line: nat) -> nat {
        line_length(self.lines, line as int)
    }

    /// The cursor stands on a line of the buffer, no further right than the
    /// end of that line. In a buffer without lines it stands at `(0, 0)`.
    pub open spec fn cursor_in_buffer(self) -> bool {
        self.line <= self.last_line() && self.column <= self.length_of(self.line)
    }

    /// The cursor is inside the part of the buffer that the screen shows.
    pub open spec fn cursor_on_screen(self) -> bool {
        &&& self.row_off <= self.line < self.row_off + self.height
        &&& self.col_off <= self.column < self.col_off + self.width
    }

    /// What holds of every state the editor can be in. There is no text
    /// before the text is loaded.
    pub open spec fn wf(self) -> bool {
        &&& !self.loaded ==> self.lines.len() == 0
        &&& self.cursor_in_buffer()
        &&& self.row_off <= self.last_line()
        &&& !self.degenerate() ==> self.cursor_on_screen()
    }

    /// Screen column of the cursor.
    pub open spec fn screen_col(self) -> int {
        self.column - self.col_off
    }

    /// Screen row of the cursor.
    pub open spec fn screen_row(self) -> int {
        self.line - self.row_off
    }

    /// The state after the offsets have been adjusted to show the cursor.
    /// A degenerate terminal leaves them alone.
    pub open spec fn scrolled(self) -> ViewState {
        if self.degenerate() {
            self
        } else {
            ViewState {
                row_off: scroll_offset(self.line, self.row_off, self.height),
                col_off: scroll_offset(self.column, self.col_off, self.width),
                ..self
            }
        }
    }

    /// The state after the terminal has changed its size: the size is
    /// recorded, then the offsets follow the cursor, which stays where it is.
    pub open spec fn resized(self, width: nat, height: nat) -> ViewState {
        ViewState { width, height, ..self }.scrolled()
    }

    /// The state after the cursor has gone to `(line, column)` and the
    /// offsets have followed.
    pub open spec fn moved_to(self, line: nat, column: nat) -> ViewState {
        ViewState { line, column, ..self }.scrolled()
    }

    /// The cursor's place after a move to `line` that keeps the column where
    /// the line is long enough, and stops at the end of the line where not.
    pub open spec fn clamped_to(self, line: nat) -> (nat, nat) {
        (line, smaller(self.column, self.length_of(line)))
    }

    /// Where a navigation key sends the cursor.
    ///
    /// Up and down keep the column as far as the new line allows. Left at
    /// the start of a line goes to the end of the line above, right at the
    /// end of a line to the start of the line below, as if the lines were
    /// joined. A page is as many lines as the terminal has rows. No key
    /// leaves the buffer.
    pub open spec fn target(self, code: KeyCode) -> (nat, nat) {
        match code {
            KeyCode::Up => self.clamped_to(minus(self.line, 1)),
            KeyCode::Down => self.clamped_to(smaller(self.last_line(), self.line + 1)),
            KeyCode::Left => if self.column > 0 {
                (self.line, minus(self.column, 1))
            } else if self.line > 0 {
                (minus(self.line, 1), self.length_of(minus(self.line, 1)))
            } else {
                (self.line, self.column)
            },
            KeyCode::Right => if self.column < self.length_of(self.line) {
                (self.line, self.column + 1)
            } else if self.line < self.last_line() {
                (self.line + 1, 0)
            } else {
                (self.line, self.column)
            },
            KeyCode::Home => (self.line, 0),
            KeyCode::End => (self.line, self.length_of(self.line)),
            KeyCode::PageUp => self.clamped_to(minus(self.line, self.height)),
            KeyCode::PageDown => self.clamped_to(smaller(self.last_line(), self.line + self.height)),
            _ => (self.line, self.column),
        }
    }

    /// The state after a key press that moves the cursor. Other keys change
    /// nothing.
    pub open spec fn after_key(self, code: KeyCode) -> ViewState {
        if code.is_navigation() {
            self.moved_to(self.target(code).0, self.target(code).1)
        } else {
            self
        }
    }

    /// Whether text can be inserted at the cursor: it can wherever the
    /// cursor stands on a line, so everywhere but in a buffer without lines.
    pub open spec fn editable(self) -> bool {
        editable_at(self.lines, self.line as int, self.column as int)
    }

    /// The state after `ch` has been typed: it is inserted at the cursor,
    /// which moves one column to the right. Nothing happens in a buffer
    /// without lines.
    pub open spec fn after_char(self, ch: char) -> ViewState {
        if self.editable() {
            ViewState {
                lines: with_char(self.lines, self.line as int, self.column as int, ch),
                ..self
            }.moved_to(self.line, self.column + 1)
        } else {
            self
        }
    }

    /// The state after the return key: the line is broken at the cursor,
    /// which moves to the start of the new line. Nothing happens in a buffer
    /// without lines.
    pub open spec fn after_newline(self) -> ViewState {
        if self.editable() {
            ViewState {
                lines: with_split(self.lines, self.line as int, self.column as int),
                ..self
            }.moved_to(self.line + 1, 0)
        } else {
            self
        }
    }

    /// The state after `lines` have been handed over for loading. The text
    /// is loaded once: the first load makes `lines` the text, and every
    /// later one changes nothing, whatever it brings.
    pub open spec fn after_load(self, lines: Seq<Seq<char>>) -> ViewState {
        if self.loaded {
            self
        } else {
            ViewState { loaded: true, lines, ..self }
        }
    }

    /// The buffer coordinate shown in screen cell `(col, row)`, brought back
    /// into the buffer where the cell lies outside the text.
    pub open spec fn cell_target(self, col: nat, row: nat) -> (nat, nat) {
        let line = smaller(self.last_line(), self.row_off + row);
        (line, smaller(self.length_of(line), self.col_off + col))
    }

    /// The state after the cursor has been put on screen cell `(col, row)`.
    pub open spec fn placed_at(self, col: nat, row: nat) -> ViewState {
        self.moved_to(self.cell_target(col, row).0, self.cell_target(col, row).1)
    }

    /// Whether going from `self` to `next` changes what the screen has to
    /// show of the cursor: an offset moved, or the cursor's cell did.
    pub open spec fn differs_on_screen(self, next: ViewState) -> bool {
        ||| self.row_off != next.row_off
        ||| self.col_off != next.col_off
        ||| self.screen_row() != next.screen_row()
        ||| self.screen_col() != next.screen_col()
    }

    /// The part of `text` that falls between the first and the last column
    /// shown.
    pub open spec fn visible_part(self, text: Seq<char>) -> Seq<char> {
        text.subrange(
            smaller(self.col_off, text.len()) as int,
            smaller(text.len(), self.col_off + self.width) as int,
        )
    }

    /// What screen row `row` shows: the visible part of its line, or a
    /// tilde where the text has ended.
    pub open spec fn row_text(self, row: nat) -> Seq<char> {
        if self.row_off + row < self.lines.len() {
            self.visible_part(self.lines[(self.row_off + row) as int])
        } else {
            seq!['~']
        }
    }

    /// The rows of one frame, top to bottom: one for each row of the
    /// terminal, none on a degenerate terminal.
    pub open spec fn rows(self) -> Seq<Seq<char>> {
        if self.degenerate() {
            Seq::empty()
        } else {
            Seq::new(self.height, |row: int| self.row_text(row as nat))
        }
    }

    /// How many rows of a frame show a line of the text.
    pub open spec fn text_rows(self) -> nat {
        if self.degenerate() {
            0
        } else {
            smaller(self.height, minus(self.lines.len(), self.row_off))
        }
    }
}

/// A cursor inside the buffer stays inside whatever key is pressed.
pub proof fn lemma_target_in_buffer(s: ViewState, code: KeyCode)
    requires
        s.cursor_in_buffer(),
    ensures
        s.target(code).0 <= s.last_line(),
        s.target(code).1 <= s.length_of(s.target(code).0),
{
}

/// Moving the cursor to a place inside the buffer keeps the state well
/// formed.
pub proof fn lemma_moved_to_wf(s: ViewState, line: nat, column: nat)
    requires
        s.loaded || s.lines.len() == 0,
        s.row_off <= s.last_line(),
        line <= s.last_line(),
        column <= s.length_of(line),
    ensures
        s.moved_to(line, column).wf(),
{
}

} // verus!

//! The window over the buffer: the text, the cursor, the scroll offsets and
//! the size of the terminal, kept consistent under every move and edit.

use vstd::prelude::*;
use vstd::view::View as _;
use crate::buffer::{text_of, Buffer};
use crate::event::KeyCode;
use crate::state::{lemma_moved_to_wf, scroll_offset, ViewState};

verus! {

/// A place in the text.
#[derive(Clone, Copy, Debug, PartialEq, Eq)]
pub struct Position {
    pub line: usize,
    pub column: usize,
}

/// Size of the terminal in character cells.
#[derive(Clone, Copy, Debug, PartialEq, Eq)]
pub struct TerminalSize {
    pub height: u16,
    pub width: u16,
}

/// The characters of a file name, where there is one.
pub open spec fn name_of(file: Option<String>) -> Option<Seq<char>> {
    match file {
        Some(name) => Some(name@),
        None => None,
    }
}

/// The window over the buffer.
pub struct View {
    buffer: Buffer,
    file_argument: Option<String>,
    loaded: bool,
    cursor_position: Position,
    row_off: usize,
    col_off: usize,
    terminal_size: TerminalSize,
}

impl vstd::view::View for View {
    type V = ViewState;

    closed spec fn view(&self) -> ViewState {
        ViewState {
            file: name_of(self.file_argument),
            loaded: self.loaded,
            lines: self.buffer@,
            line: self.cursor_position.line as nat,
            column: self.cursor_position.column as nat,
            row_off: self.row_off as nat,
            col_off: self.col_off as nat,
            width: self.terminal_size.width as nat,
            height: self.terminal_size.height as nat,
        }
    }
}

/// The offset to scroll to along one axis.
fn scroll_axis(position: usize, offset: usize, extent: usize) -> (scrolled: usize)
    requires
        extent > 0,
    ensures
        scrolled == scroll_offset(position as nat, offset as nat, extent as nat),
{
    if position < offset {
        position
    } else if position - offset >= extent {
        position.saturating_sub(extent - 1)
    } else {
        offset
    }
}

impl View {
    /// There is no text before it is loaded, the cursor is in the buffer
    /// and, unless the terminal is degenerate, on screen.
    pub open spec fn wf(&self) -> bool {
        self@.wf()
    }

    /// The terminal has no more columns or rows than a `u16` can count.
    pub proof fn lemma_size_fits(&self)
        ensures
            self@.width <= u16::MAX,
            self@.height <= u16::MAX,
    {
    }

    /// Creates the window of a new session on a terminal of `width` columns
    /// and `height` rows: no text yet, cursor and offsets at the origin.
    pub fn new(file_argument: Option<String>, width: u16, height: u16) -> (view: Self)
        ensures
            view@ == ViewState::initial(name_of(file_argument), width as nat, height as nat),
            view.wf(),
    {
        View {
            buffer: Buffer::new(),
            file_argument,
            loaded: false,
            cursor_position: Position { line: 0, column: 0 },
            row_off: 0,
            col_off: 0,
            terminal_size: TerminalSize { height, width },
        }
    }

    /// The text.
    pub fn buffer(&self) -> (buffer: &Buffer)
        ensures
            buffer@ == self@.lines,
    {
        &self.buffer
    }

    /// Name of the file the session was started for, if one was given.
    pub fn file_argument(&self) -> (file: &Option<String>)
        ensures
            name_of(*file) == self@.file,
    {
        &self.file_argument
    }

    /// Whether the text has been loaded.
    pub fn is_loaded(&self) -> (loaded: bool)
        ensures
            loaded == self@.loaded,
    {
        self.loaded
    }

    /// Where the cursor stands in the text.
    pub fn cursor_position(&self) -> (position: Position)
        ensures
            position.line == self@.line,
            position.column == self@.column,
    {
        self.cursor_position
    }

    /// First line shown.
    pub fn row_off(&self) -> (offset: usize)
        ensures
            offset == self@.row_off,
    {
        self.row_off
    }

    /// First column shown.
    pub fn col_off(&self) -> (offset: usize)
        ensures
            offset == self@.col_off,
    {
        self.col_off
    }

    /// Size of the terminal.
    pub fn terminal_size(&self) -> (size: TerminalSize)
        ensures
            size.width == self@.width,
            size.height == self@.height,
    {
        self.terminal_size
    }

    /// Whether there is no text before it is loaded, the cursor is in the
    /// buffer and, unless the terminal is degenerate, on screen. Every
    /// window made and changed through this type's own functions is so.
    pub fn is_well_formed(&self) -> (ok: bool)
        ensures
            ok == self.wf(),
    {
        let last = self.last_line();
        let Position { line, column } = self.cursor_position;
        let TerminalSize { height, width } = self.terminal_size;
        let in_buffer = line <= last && column <= self.buffer.line_length(line);
        let on_screen = self.row_off <= line && line - self.row_off < height as usize
            && self.col_off <= column && column - self.col_off < width as usize;
        let text_is_loaded = self.loaded || self.buffer.line_count() == 0;
        text_is_loaded && in_buffer && self.row_off <= last && (width == 0 || height == 0
            || on_screen)
    }

    /// The screen cell `(col, row)` the cursor is drawn in; `None` on a
    /// degenerate terminal, which draws no cursor.
    pub fn screen_position(&self) -> (cell: Option<(u16, u16)>)
        requires
            self.wf(),
        ensures
            self@.degenerate() ==> cell.is_none(),
            !self@.degenerate() ==> cell == Some(
                (self@.screen_col() as u16, self@.screen_row() as u16),
            ) && self@.screen_col() < self@.width && self@.screen_row() < self@.height,
    {
        if self.terminal_size.width == 0 || self.terminal_size.height == 0 {
            None
        } else {
            let col = self.cursor_position.column - self.col_off;
            let row = self.cursor_position.line - self.row_off;
            Some((col as u16, row as u16))
        }
    }

    /// Adjusts the offsets so that the screen shows the cursor, moving each
    /// no further than needed. A degenerate terminal leaves them alone.
    pub fn handle_scroll(&mut self)
        ensures
            final(self)@ == old(self)@.scrolled(),
    {
        let width = self.terminal_size.width as usize;
        let height = self.terminal_size.height as usize;
        if width == 0 || height == 0 {
            return ;
        }
        self.row_off = scroll_axis(self.cursor_position.line, self.row_off, height);
        self.col_off = scroll_axis(self.cursor_position.column, self.col_off, width);
    }

    /// Takes note of the terminal's new size and lets the offsets follow the
    /// cursor, which stays where it is in the text.
    pub fn resize(&mut self, width: u16, height: u16)
        ensures
            final(self)@ == old(self)@.resized(width as nat, height as nat),
            old(self).wf() ==> final(self).wf(),
    {
        self.terminal_size = TerminalSize { height, width };
        self.handle_scroll();
    }

    /// Index of the last line; zero for a buffer without lines.
    fn last_line(&self) -> (last: usize)
        ensures
            last == self@.last_line(),
    {
        self.buffer.line_count().saturating_sub(1)
    }

    /// The cursor's column, or the length of `line` where that is shorter.
    fn clamped_column(&self, line: usize) -> (column: usize)
        ensures
            (line as nat, column as nat) == self@.clamped_to(line as nat),
    {
        let length = self.buffer.line_length(line);
        if self.cursor_position.column <= length {
            self.cursor_position.column
        } else {
            length
        }
    }

    /// Puts the cursor at `(line, column)` and scrolls after it.
    fn go_to(&mut self, line: usize, column: usize)
        requires
            old(self)@.loaded || old(self)@.lines.len() == 0,
            old(self)@.row_off <= old(self)@.last_line(),
            line <= old(self)@.last_line(),
            column <= old(self)@.length_of(line as nat),
        ensures
            final(self)@ == old(self)@.moved_to(line as nat, column as nat),
            final(self).wf(),
    {
        self.cursor_position = Position { line, column };
        self.handle_scroll();
        proof {
            lemma_moved_to_wf(old(self)@, line as nat, column as nat);
        }
    }

    /// Moves the cursor one line up.
    pub fn move_up(&mut self)
        requires
            old(self).wf(),
        ensures
            final(self)@ == old(self)@.after_key(KeyCode::Up),
            final(self).wf(),
    {
        let line = self.cursor_position.line.saturating_sub(1);
        let column = self.clamped_column(line);
        self.go_to(line, column);
    }

    /// Moves the cursor one line down.
    pub fn move_down(&mut self)
        requires
            old(self).wf(),
        ensures
            final(self)@ == old(self)@.after_key(KeyCode::Down),
            final(self).wf(),
    {
        let last = self.last_line();
        let line = if self.cursor_position.line < last {
            self.cursor_position.line + 1
        } else {
            last
        };
        let column = self.clamped_column(line);
        self.go_to(line, column);
    }

    /// Moves the cursor one column left; from the start of a line, to the
    /// end of the line above.
    pub fn move_left(&mut self)
        requires
            old(self).wf(),
        ensures
            final(self)@ == old(self)@.after_key(KeyCode::Left),
            final(self).wf(),
    {
        let Position { line, column } = self.cursor_position;
        if column > 0 {
            self.go_to(line, column - 1);
        } else if line > 0 {
            let end = self.buffer.line_length(line - 1);
            self.go_to(line - 1, end);
        } else {
            self.go_to(line, column);
        }
    }

    /// Moves the cursor one column right; from the end of a line, to the
    /// start of the line below.
    pub fn move_right(&mut self)
        requires
            old(self).wf(),
        ensures
            final(self)@ == old(self)@.after_key(KeyCode::Right),
            final(self).wf(),
    {
        let Position { line, column } = self.cursor_position;
        if column < self.buffer.line_length(line) {
            self.go_to(line, column + 1);
        } else if line < self.last_line() {
            self.go_to(line + 1, 0);
        } else {
            self.go_to(line, column);
        }
    }

    /// Moves the cursor to the start of its line.
    pub fn move_home(&mut self)
        requires
            old(self).wf(),
        ensures
            final(self)@ == old(self)@.after_key(KeyCode::Home),
            final(self).wf(),
    {
        let line = self.cursor_position.line;
        self.go_to(line, 0);
    }

    /// Moves the cursor to the end of its line.
    pub fn move_end(&mut self)
        requires
            old(self).wf(),
        ensures
            final(self)@ == old(self)@.after_key(KeyCode::End),
            final(self).wf(),
    {
        let line = self.cursor_position.line;
        let end = self.buffer.line_length(line);
        self.go_to(line, end);
    }

    /// Moves the cursor up by as many lines as the terminal has rows.
    pub fn page_up(&mut self)
        requires
            old(self).wf(),
        ensures
            final(self)@ == old(self)@.after_key(KeyCode::PageUp),
            final(self).wf(),
    {
        let page = self.terminal_size.height as usize;
        let line = self.cursor_position.line.saturating_sub(page);
        let column = self.clamped_column(line);
        self.go_to(line, column);
    }

    /// Moves the cursor down by as many lines as the terminal has rows.
    pub fn page_down(&mut self)
        requires
            old(self).wf(),
        ensures
            final(self)@ == old(self)@.after_key(KeyCode::PageDown),
            final(self).wf(),
    {
        let page = self.terminal_size.height as usize;
        let last = self.last_line();
        let line = if last - self.cursor_position.line > page {
            self.cursor_position.line + page
        } else {
            last
        };
        let column = self.clamped_column(line);
        self.go_to(line, column);
    }

    /// Puts the cursor on the place in the text that screen cell
    /// `(col, row)` shows, or on the nearest place in the text where the
    /// cell lies beyond it.
    pub fn place_cursor(&mut self, col: u16, row: u16)
        requires
            old(self).wf(),
        ensures
            final(self)@ == old(self)@.placed_at(col as nat, row as nat),
            final(self).wf(),
    {
        let last = self.last_line();
        let line = if last - self.row_off > row as usize {
            self.row_off + row as usize
        } else {
            last
        };
        let length = self.buffer.line_length(line);
        let column = if length > self.col_off && length - self.col_off > col as usize {
            self.col_off + col as usize
        } else {
            length
        };
        self.go_to(line, column);
    }

    /// Types `ch` at the cursor, which moves one column to the right.
    /// Nothing happens in a buffer without lines.
    pub fn insert_char(&mut self, ch: char)
        requires
            old(self).wf(),
        ensures
            final(self)@ == old(self)@.after_char(ch),
            final(self).wf(),
    {
        let Position { line, column } = self.cursor_position;
        if self.buffer.insert_char(line, column, ch).is_ok() {
            proof {
                self.buffer.lemma_lengths_fit();
                assert(column < self.buffer@[line as int].len());
            }
            self.go_to(line, column + 1);
        }
    }

    /// Breaks the line at the cursor, which moves to the start of the new
    /// line. Nothing happens in a buffer without lines.
    pub fn insert_newline(&mut self)
        requires
            old(self).wf(),
        ensures
            final(self)@ == old(self)@.after_newline(),
            final(self).wf(),
    {
        let Position { line, column } = self.cursor_position;
        if self.buffer.split_line(line, column).is_ok() {
            proof {
                self.buffer.lemma_lengths_fit();
            }
            self.go_to(line + 1, 0);
        }
    }

    /// How many rows of a frame show a line of the text.
    fn text_rows(&self) -> (shown: u16)
        ensures
            shown == self@.text_rows(),
    {
        let TerminalSize { height, width } = self.terminal_size;
        let below = self.buffer.line_count().saturating_sub(self.row_off);
        if width == 0 || height == 0 {
            0
        } else if below < height as usize {
            below as u16
        } else {
            height
        }
    }

    /// Loads `lines` as the text, once: where the text has been loaded
    /// before, nothing changes, whatever `lines` holds. Says how many rows of
    /// the screen show text afterwards.
    pub fn display_file(&mut self, lines: Vec<Vec<char>>) -> (shown: u16)
        requires
            old(self).wf(),
        ensures
            final(self)@ == old(self)@.after_load(text_of(lines)),
            final(self).wf(),
            shown == final(self)@.text_rows(),
    {
        if !self.loaded {
            self.buffer = Buffer::from_lines(lines);
            self.loaded = true;
        }
        self.text_rows()
    }

    /// What screen row `row` shows: the part of its line between the first
    /// and the last column shown, or a tilde where the text has ended.
    pub fn display_line(&self, row: u16) -> (text: Vec<char>)
        ensures
            text@ == self@.row_text(row as nat),
    {
        let count = self.buffer.line_count();
        let mut text: Vec<char> = Vec::new();
        if self.row_off < count && (row as usize) < count - self.row_off {
            let line = self.buffer.line_at(self.row_off + row as usize).unwrap();
            let length = line.len();
            let width = self.terminal_size.width as usize;
            let start = if self.col_off < length {
                self.col_off
            } else {
                length
            };
            let end = if length - start > width {
                start + width
            } else {
                length
            };
            let mut i = start;
            while i < end
                invariant
                    start <= i <= end <= line@.len(),
                    text@ == line@.subrange(start as int, i as int),
                decreases end - i,
            {
                text.push(line[i]);
                i += 1;
            }
        } else {
            text.push('~');
        }
        text
    }

    /// The rows of one frame, top to bottom. Nothing is changed.
    pub fn render(&self) -> (rows: Vec<Vec<char>>)
        ensures
            text_of(rows) == self@.rows(),
    {
        let TerminalSize { height, width } = self.terminal_size;
        let mut rows: Vec<Vec<char>> = Vec::new();
        if width == 0 || height == 0 {
            return rows;
        }
        let mut row: u16 = 0;
        while row < height
            invariant
                row <= height,
                height == self@.height,
                text_of(rows) == Seq::new(row as nat, |r: int| self@.row_text(r as nat)),
            decreases height - row,
        {
            let ghost above = text_of(rows);
            let text = self.display_line(row);
            rows.push(text);
            assert(text_of(rows) =~= above.push(self@.row_text(row as nat)));
            row += 1;
        }
        rows
    }

    /// Takes note of the terminal's new size, scrolls after the cursor and
    /// gives the rows of the frame to draw.
    pub fn reload_screen(&mut self, width: u16, height: u16) -> (rows: Vec<Vec<char>>)
        ensures
            final(self)@ == old(self)@.resized(width as nat, height as nat),
            old(self).wf() ==> final(self).wf(),
            text_of(rows) == final(self)@.rows(),
    {
        self.resize(width, height);
        self.render()
    }
}

} // verus!

//! The text buffer: an ordered sequence of lines.
//!
//! A line is a sequence of characters, each occupying exactly one column.
//! The buffer is pure data: it knows nothing of cursors, scrolling or the
//! terminal.

use vstd::prelude::*;

verus! {

/// Why an edit of the buffer was refused.
#[derive(Clone, Copy, Debug, PartialEq, Eq)]
pub enum BufferError {
    /// The line does not exist, or the column lies past the end of the line.
    OutOfBounds,
}

/// The text held by a vector of lines.
pub open spec fn text_of(lines: Vec<Vec<char>>) -> Seq<Seq<char>> {
    Seq::new(lines@.len(), |i: int| lines@[i]@)
}

/// Length of line `index` of `lines`; zero where there is no such line.
pub open spec fn line_length(lines: Seq<Seq<char>>, index: int) -> nat {
    if 0 <= index < lines.len() {
        lines[index].len()
    } else {
        0
    }
}

/// Whether `(line, column)` names a place in `lines` where text can be
/// inserted: an existing line, and a column no further than its end.
pub open spec fn editable_at(lines: Seq<Seq<char>>, line: int, column: int) -> bool {
    0 <= line < lines.len() && 0 <= column <= lines[line].len()
}

/// `lines` after `ch` has been inserted at `(line, column)`.
pub open spec fn with_char(lines: Seq<Seq<char>>, line: int, column: int, ch: char) -> Seq<
    Seq<char>,
> {
    lines.update(line, lines[line].insert(column, ch))
}

/// `lines` after line `line` has been broken in two at `column`: the part
/// before the column stays, the rest becomes a new line right below.
pub open spec fn with_split(lines: Seq<Seq<char>>, line: int, column: int) -> Seq<Seq<char>> {
    lines.update(line, lines[line].take(column)).insert(line + 1, lines[line].skip(column))
}

/// The text being edited.
pub struct Buffer {
    lines: Vec<Vec<char>>,
}

impl View for Buffer {
    type V = Seq<Seq<char>>;

    closed spec fn view(&self) -> Seq<Seq<char>> {
        text_of(self.lines)
    }
}

impl Buffer {
    /// A buffer holds no more lines, and a line no more characters, than a
    /// `usize` can count.
    pub proof fn lemma_lengths_fit(&self)
        ensures
            self@.len() <= usize::MAX,
            forall|index: int|
                0 <= index < self@.len() ==> #[trigger] self@[index].len() <= usize::MAX,
    {
        assert(self.lines@.len() == self.lines.len());
        assert forall|index: int| 0 <= index < self@.len() implies #[trigger] self@[index].len()
            <= usize::MAX by {
            assert(self.lines@[index]@.len() == self.lines@[index].len());
        }
    }

    /// Creates a buffer with no lines.
    pub fn new() -> (buffer: Self)
        ensures
            buffer@ == Seq::<Seq<char>>::empty(),
    {
        Buffer { lines: Vec::new() }
    }

    /// Creates a buffer holding `lines`, in order.
    pub fn from_lines(lines: Vec<Vec<char>>) -> (buffer: Self)
        ensures
            buffer@ == text_of(lines),
    {
        Buffer { lines }
    }

    /// Number of lines.
    pub fn line_count(&self) -> (count: usize)
        ensures
            count == self@.len(),
    {
        self.lines.len()
    }

    /// The line at `index`, or `None` where the buffer has no such line.
    pub fn line_at(&self, index: usize) -> (line: Option<&Vec<char>>)
        ensures
            index < self@.len() ==> line.is_some() && line.unwrap()@ == self@[index as int],
            index >= self@.len() ==> line.is_none(),
    {
        if index < self.lines.len() {
            Some(&self.lines[index])
        } else {
            None
        }
    }

    /// Length of the line at `index`; zero where the buffer has no such line.
    pub fn line_length(&self, index: usize) -> (length: usize)
        ensures
            length == line_length(self@, index as int),
    {
        if index < self.lines.len() {
            self.lines[index].len()
        } else {
            0
        }
    }

    /// Inserts `ch` into line `line` so that it ends up at column `column`.
    ///
    /// Fails, leaving the buffer as it was, when the line does not exist or
    /// the column lies past its end.
    pub fn insert_char(&mut self, line: usize, column: usize, ch: char) -> (result: Result<
        (),
        BufferError,
    >)
        ensures
            result.is_ok() <==> editable_at(old(self)@, line as int, column as int),
            result.is_ok() ==> final(self)@ == with_char(
                old(self)@,
                line as int,
                column as int,
                ch,
            ),
            result.is_err() ==> final(self)@ == old(self)@ && result
                == Err::<(), BufferError>(BufferError::OutOfBounds),
    {
        if line >= self.lines.len() {
            return Err(BufferError::OutOfBounds);
        }
        if column > self.lines[line].len() {
            return Err(BufferError::OutOfBounds);
        }
        self.lines[line].insert(column, ch);
        Ok(())
    }

    /// Breaks line `line` in two at `column`.
    ///
    /// Fails, leaving the buffer as it was, when the line does not exist or
    /// the column lies past its end.
    pub fn split_line(&mut self, line: usize, column: usize) -> (result: Result<(), BufferError>)
        ensures
            result.is_ok() <==> editable_at(old(self)@, line as int, column as int),
            result.is_ok() ==> final(self)@ == with_split(old(self)@, line as int, column as int),
            result.is_err() ==> final(self)@ == old(self)@ && result
                == Err::<(), BufferError>(BufferError::OutOfBounds),
    {
        if line >= self.lines.len() {
            return Err(BufferError::OutOfBounds);
        }
        if column > self.lines[line].len() {
            return Err(BufferError::OutOfBounds);
        }
        let rest = self.lines[line].split_off(column);
        self.lines.insert(line + 1, rest);
        Ok(())
    }
}

} // verus!

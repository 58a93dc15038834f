//! The control sequences that draw a frame on the terminal.
//!
//! The sequences themselves come from `termion`. What each of them is, is
//! stated here character by character, so that a frame can be specified
//! down to the last character written.

use vstd::prelude::*;

verus! {

/// The decimal digit for `d`, which is below ten.
pub open spec fn digit(d: nat) -> char {
    seq!['0', '1', '2', '3', '4', '5', '6', '7', '8', '9'][d as int]
}

/// `n` written in decimal, without sign or leading zeros.
pub open spec fn decimal(n: nat) -> Seq<char>
    decreases n,
{
    if n < 10 {
        seq![digit(n)]
    } else {
        decimal(n / 10).push(digit(n % 10))
    }
}

/// What every control sequence starts with: escape, then an opening bracket.
pub open spec fn csi() -> Seq<char> {
    seq!['\x1b', '[']
}

/// The sequence that moves the cursor to column `x` of row `y`, both
/// counted from one.
pub open spec fn goto_sequence(x: nat, y: nat) -> Seq<char> {
    csi() + decimal(y) + seq![';'] + decimal(x) + seq!['H']
}

/// The sequence that hides the cursor.
pub open spec fn hide_sequence() -> Seq<char> {
    csi() + seq!['?', '2', '5', 'l']
}

/// The sequence that shows the cursor.
pub open spec fn show_sequence() -> Seq<char> {
    csi() + seq!['?', '2', '5', 'h']
}

/// The sequence that clears the line the cursor is on.
pub open spec fn clear_line_sequence() -> Seq<char> {
    csi() + seq!['2', 'K']
}

/// Formats `termion::cursor::Goto(x, y)`.
///
/// Trusted: termion writes escape, `[`, the row in decimal, `;`, the column
/// in decimal and `H`. Both coordinates count from one.
#[verifier::external_body]
pub(crate) fn cursor_goto(x: u16, y: u16) -> (sequence: Vec<char>)
    requires
        x >= 1,
        y >= 1,
    ensures
        sequence@ == goto_sequence(x as nat, y as nat),
{
    format!("{}", termion::cursor::Goto(x, y)).chars().collect()
}

/// Formats `termion::cursor::Hide`.
///
/// Trusted: termion writes escape, `[` and `?25l`.
#[verifier::external_body]
pub(crate) fn cursor_hide() -> (sequence: Vec<char>)
    ensures
        sequence@ == hide_sequence(),
{
    format!("{}", termion::cursor::Hide).chars().collect()
}

/// Formats `termion::cursor::Show`.
///
/// Trusted: termion writes escape, `[` and `?25h`.
#[verifier::external_body]
pub(crate) fn cursor_show() -> (sequence: Vec<char>)
    ensures
        sequence@ == show_sequence(),
{
    format!("{}", termion::cursor::Show).chars().collect()
}

/// Formats `termion::clear::CurrentLine`.
///
/// Trusted: termion writes escape, `[` and `2K`.
#[verifier::external_body]
pub(crate) fn clear_current_line() -> (sequence: Vec<char>)
    ensures
        sequence@ == clear_line_sequence(),
{
    format!("{}", termion::clear::CurrentLine).chars().collect()
}

/// Screen row `index`, counted from zero, as it is written to the terminal:
/// the cursor goes to the start of the row, the row is cleared, and `text`
/// is written.
pub open spec fn encoded_row(index: nat, text: Seq<char>) -> Seq<char> {
    goto_sequence(1, index + 1) + clear_line_sequence() + text
}

/// The first `count` of `rows` as they are written to the terminal, top to
/// bottom.
pub open spec fn encoded_rows(rows: Seq<Seq<char>>, count: nat) -> Seq<char>
    decreases count,
{
    if count == 0 {
        Seq::empty()
    } else {
        encoded_rows(rows, (count - 1) as nat) + encoded_row(
            (count - 1) as nat,
            rows[count - 1],
        )
    }
}

/// Writes `rows` as they go to the terminal, top to bottom.
pub fn encode_rows(rows: &Vec<Vec<char>>) -> (out: Vec<char>)
    requires
        rows@.len() <= u16::MAX,
    ensures
        out@ == encoded_rows(crate::buffer::text_of(*rows), rows@.len()),
{
    let mut out: Vec<char> = Vec::new();
    let mut index: u16 = 0;
    while (index as usize) < rows.len()
        invariant
            index <= rows@.len() <= u16::MAX,
            out@ == encoded_rows(crate::buffer::text_of(*rows), index as nat),
        decreases rows@.len() - index,
    {
        let mut place = cursor_goto(1, index + 1);
        let mut clear = clear_current_line();
        let mut text = rows[index as usize].clone();
        assert(text@ == rows@[index as int]@);
        out.append(&mut place);
        out.append(&mut clear);
        out.append(&mut text);
        index += 1;
    }
    out
}

} // verus!

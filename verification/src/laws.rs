//! What holds of the editor whatever the user does, proved over the model
//! that the executable code follows.

use vstd::prelude::*;
use crate::buffer::{editable_at, with_char, with_split};
use crate::editor::EditorState;
use crate::event::{is_quit, Action, Event, KeyCode, KeyEvent};
use crate::state::{
    lemma_moved_to_wf,
    lemma_target_in_buffer,
    minus,
    scroll_offset,
    smaller,
    ViewState,
};

verus! {

/// Typing changes one line and no other: the line count stays, the typed
/// character stands at the column it was typed at, and taking it out again
/// gives the line as it was.
pub proof fn lemma_typing_changes_one_line(
    lines: Seq<Seq<char>>,
    line: int,
    column: int,
    ch: char,
)
    requires
        editable_at(lines, line, column),
    ensures
        with_char(lines, line, column, ch).len() == lines.len(),
        with_char(lines, line, column, ch)[line].len() == lines[line].len() + 1,
        with_char(lines, line, column, ch)[line][column] == ch,
        with_char(lines, line, column, ch)[line].remove(column) == lines[line],
        forall|other: int|
            0 <= other < lines.len() && other != line ==> #[trigger] with_char(
                lines,
                line,
                column,
                ch,
            )[other] == lines[other],
{
    assert(lines[line].insert(column, ch).remove(column) =~= lines[line]);
}

/// Breaking a line adds one line and loses no text: the two halves, put
/// together again, are the line as it was; the lines above stay where they
/// are and the lines below move down by one, in their order.
pub proof fn lemma_breaking_keeps_the_text(lines: Seq<Seq<char>>, line: int, column: int)
    requires
        editable_at(lines, line, column),
    ensures
        with_split(lines, line, column).len() == lines.len() + 1,
        with_split(lines, line, column)[line] + with_split(lines, line, column)[line + 1]
            == lines[line],
        with_split(lines, line, column)[line].len() == column,
        forall|above: int|
            0 <= above < line ==> #[trigger] with_split(lines, line, column)[above]
                == lines[above],
        forall|below: int|
            line < below < lines.len() ==> #[trigger] with_split(lines, line, column)[below + 1]
                == lines[below],
{
    assert(lines[line].take(column) + lines[line].skip(column) =~= lines[line]);
}

/// A move changes the cursor's cell or an offset exactly when it changes
/// the cursor's place in the text or an offset.
pub proof fn lemma_differs_on_screen(s: ViewState, next: ViewState)
    ensures
        s.differs_on_screen(next) <==> (s.line != next.line || s.column != next.column || s.row_off
            != next.row_off || s.col_off != next.col_off),
{
}

/// How far two offsets lie apart.
pub open spec fn distance(a: nat, b: nat) -> nat {
    if a >= b {
        (a - b) as nat
    } else {
        (b - a) as nat
    }
}

/// Scrolling shows the cursor, and moves no offset past it.
pub proof fn lemma_scroll_shows_the_cursor(position: nat, offset: nat, extent: nat)
    requires
        extent > 0,
    ensures
        scroll_offset(position, offset, extent) <= position < scroll_offset(
            position,
            offset,
            extent,
        ) + extent,
{
}

/// Whatever state the window is in, after scrolling the cursor is on
/// screen, unless the terminal is degenerate.
pub proof fn lemma_scrolled_is_on_screen(s: ViewState)
    requires
        !s.degenerate(),
    ensures
        s.scrolled().cursor_on_screen(),
{
}

/// A well-formed state is already scrolled: scrolling changes nothing.
pub proof fn lemma_wf_is_scrolled(s: ViewState)
    requires
        s.wf(),
    ensures
        s.scrolled() == s,
{
}

/// Scrolling never computes below zero: where the cursor has passed the far
/// edge, the new offset is the plain difference `position + 1 - extent`,
/// which is positive, so nothing is cut off at zero and nothing wraps.
pub proof fn lemma_scroll_never_underflows(position: nat, offset: nat, extent: nat)
    requires
        extent > 0,
    ensures
        position >= offset + extent ==> position + 1 - extent > offset,
        scroll_offset(position, offset, extent) == if position < offset {
            position as int
        } else if position >= offset + extent {
            position + 1 - extent
        } else {
            offset as int
        },
{
}

/// Scrolling moves an offset no further than needed: no offset that shows
/// the cursor lies nearer to the old one than the one scrolled to.
pub proof fn lemma_scroll_is_least(position: nat, offset: nat, extent: nat, other: nat)
    requires
        extent > 0,
        other <= position < other + extent,
    ensures
        distance(scroll_offset(position, offset, extent), offset) <= distance(other, offset),
{
}

/// Scrolling twice changes nothing the second time.
pub proof fn lemma_scroll_idempotent(s: ViewState)
    ensures
        s.scrolled().scrolled() == s.scrolled(),
{
}

/// Resizing twice to the same size gives the state that resizing once
/// gives, and at no time moves the cursor in the text.
pub proof fn lemma_resize_idempotent(s: ViewState, width: nat, height: nat)
    ensures
        s.resized(width, height).resized(width, height) == s.resized(width, height),
        s.resized(width, height).line == s.line,
        s.resized(width, height).column == s.column,
        s.resized(width, height).lines == s.lines,
{
}

/// Two notices of the same size, one after the other, leave the session as
/// one notice does.
pub proof fn lemma_resize_event_idempotent(s: EditorState, width: u16, height: u16)
    ensures
        s.step(Some(Event::Resize(width, height))).step(Some(Event::Resize(width, height)))
            == s.step(Some(Event::Resize(width, height))),
{
    lemma_resize_idempotent(s.view, width as nat, height as nat);
}

/// A move to another line never leaves the cursor past the end of the line
/// it arrives on, and never pushes it to the right.
pub proof fn lemma_vertical_move_clamps(s: ViewState, code: KeyCode)
    requires
        s.wf(),
        code.is_vertical(),
    ensures
        s.after_key(code).column <= s.after_key(code).length_of(s.after_key(code).line),
        s.after_key(code).column == smaller(s.column, s.length_of(s.after_key(code).line)),
{
}

/// Where the text is shorter than the screen, moving down scrolls nowhere:
/// the first line shown stays, and the first column shown either stays or
/// falls back to the cursor's column, never below zero.
pub proof fn lemma_short_text_never_scrolls_down(s: ViewState, code: KeyCode)
    requires
        s.wf(),
        s.lines.len() < s.height,
        code is Down || code is PageDown,
    ensures
        s.after_key(code).row_off == s.row_off,
        s.after_key(code).col_off <= s.col_off,
        s.width > 0 ==> s.after_key(code).col_off == smaller(
            s.col_off,
            s.after_key(code).column,
        ),
{
}

/// Each key that moves the cursor keeps the state well formed.
pub proof fn lemma_key_preserves_wf(s: ViewState, code: KeyCode)
    requires
        s.wf(),
    ensures
        s.after_key(code).wf(),
{
    lemma_target_in_buffer(s, code);
    lemma_moved_to_wf(s, s.target(code).0, s.target(code).1);
}

/// Typing a character keeps the state well formed.
pub proof fn lemma_char_preserves_wf(s: ViewState, ch: char)
    requires
        s.wf(),
    ensures
        s.after_char(ch).wf(),
{
    if s.editable() {
        let typed = ViewState {
            lines: crate::buffer::with_char(s.lines, s.line as int, s.column as int, ch),
            ..s
        };
        lemma_moved_to_wf(typed, s.line, s.column + 1);
    }
}

/// Breaking a line keeps the state well formed.
pub proof fn lemma_newline_preserves_wf(s: ViewState)
    requires
        s.wf(),
    ensures
        s.after_newline().wf(),
{
    if s.editable() {
        let broken = ViewState {
            lines: crate::buffer::with_split(s.lines, s.line as int, s.column as int),
            ..s
        };
        lemma_moved_to_wf(broken, s.line + 1, 0);
    }
}

/// Putting the cursor on a screen cell keeps the state well formed.
pub proof fn lemma_placing_preserves_wf(s: ViewState, col: nat, row: nat)
    requires
        s.wf(),
    ensures
        s.placed_at(col, row).wf(),
{
    lemma_moved_to_wf(s, s.cell_target(col, row).0, s.cell_target(col, row).1);
}

/// Loading lines keeps the state well formed.
pub proof fn lemma_load_preserves_wf(s: ViewState, lines: Seq<Seq<char>>)
    requires
        s.wf(),
    ensures
        s.after_load(lines).wf(),
{
}

/// The text is loaded once. The first load makes the lines it brings the
/// text, be they none at all; a load after it changes nothing, so that
/// loading the same file again leaves the text as it is rather than twice
/// as long.
pub proof fn lemma_text_is_loaded_once(
    s: ViewState,
    first: Seq<Seq<char>>,
    second: Seq<Seq<char>>,
)
    ensures
        !s.loaded ==> s.after_load(first).lines == first,
        s.after_load(first).loaded,
        s.after_load(first).after_load(second) == s.after_load(first),
        s.loaded ==> s.after_load(first) == s,
{
}

/// Only a load and an edit change the text: keys that move the cursor and
/// changes of the terminal's size leave it as it is, and nothing but a load
/// marks the text as loaded.
pub proof fn lemma_moves_keep_the_text(s: ViewState, code: KeyCode, width: nat, height: nat)
    ensures
        s.after_key(code).lines == s.lines,
        s.after_key(code).loaded == s.loaded,
        s.resized(width, height).lines == s.lines,
        s.resized(width, height).loaded == s.loaded,
        s.scrolled().lines == s.lines,
        s.scrolled().loaded == s.loaded,
{
}

/// One turn of the loop keeps the state well formed, whatever arrives.
pub proof fn lemma_step_preserves_wf(s: EditorState, event: Option<Event>)
    requires
        s.wf(),
    ensures
        s.step(event).wf(),
{
    match event {
        Some(Event::Key(key)) => {
            lemma_key_preserves_wf(s.view, key.code);
            match key.code {
                KeyCode::Char(ch) => {
                    lemma_char_preserves_wf(s.view, ch);
                    lemma_newline_preserves_wf(s.view);
                },
                KeyCode::Enter => {
                    lemma_newline_preserves_wf(s.view);
                },
                _ => {},
            }
        },
        _ => {},
    }
}

/// Every state that a session reaches is well formed: the cursor stands in
/// the text and no offset lies beyond it.
pub proof fn lemma_reachable_is_wf(s: EditorState, events: Seq<Option<Event>>)
    requires
        s.wf(),
    ensures
        s.after_events(events).wf(),
    decreases events.len(),
{
    if events.len() > 0 {
        lemma_reachable_is_wf(s, events.drop_last());
        lemma_step_preserves_wf(s.after_events(events.drop_last()), events.last());
    }
}

/// After any sequence of moves, edits and resizes, the cursor is drawn
/// inside the screen, unless the terminal has no rows or no columns.
pub proof fn lemma_cursor_stays_on_screen(s: EditorState, events: Seq<Option<Event>>)
    requires
        s.wf(),
    ensures
        ({
            let view = s.after_events(events).view;
            view.width > 0 && view.height > 0 ==> 0 <= view.screen_row() < view.height && 0
                <= view.screen_col() < view.width
        }),
{
    lemma_reachable_is_wf(s, events);
}

/// After any sequence of moves, edits and resizes, the first line shown is
/// a line of the text, or line zero where there is no text; and unless the
/// terminal is degenerate, the first column shown is a column of the line
/// the cursor is on, hence of the first line shown wherever that line is no
/// shorter.
pub proof fn lemma_offsets_stay_in_bounds(s: EditorState, events: Seq<Option<Event>>)
    requires
        s.wf(),
    ensures
        ({
            let view = s.after_events(events).view;
            &&& view.row_off <= minus(view.lines.len(), 1)
            &&& !view.degenerate() ==> view.col_off <= view.length_of(view.line)
            &&& !view.degenerate() && view.length_of(view.line) <= view.length_of(view.row_off)
                ==> view.col_off <= view.length_of(view.row_off)
        }),
{
    lemma_reachable_is_wf(s, events);
}

/// The cursor is drawn over the character it stands on: the cell of the
/// frame at the cursor's screen coordinate holds the character of the text
/// at the cursor's buffer coordinate, wherever the cursor stands on one.
pub proof fn lemma_cursor_cell_shows_its_character(s: ViewState)
    requires
        s.wf(),
        !s.degenerate(),
        s.column < s.length_of(s.line),
    ensures
        s.rows()[s.screen_row()][s.screen_col()] == s.lines[s.line as int][s.column as int],
{
}

/// No row of a frame is wider than the terminal.
pub proof fn lemma_rows_fit_the_terminal(s: ViewState, row: int)
    requires
        0 <= row < s.rows().len(),
    ensures
        s.rows().len() == s.height,
        s.rows()[row].len() <= s.width,
{
}

/// A new session is well formed, with or without text.
pub proof fn lemma_initial_is_wf(
    file: Option<Seq<char>>,
    width: nat,
    height: nat,
    lines: Seq<Seq<char>>,
)
    ensures
        EditorState::initial(file, width, height).wf(),
        EditorState::initial(file, width, height).after_load(lines).wf(),
{
}

/// Control with `c` ends the session, whatever state it is in.
pub proof fn lemma_quit_key_quits(s: EditorState)
    ensures
        s.step(
            Some(Event::Key(KeyEvent { code: KeyCode::Char('c'), ctrl: true })),
        ).action() == Action::Quit,
{
}

/// Once the user has asked to quit, no event changes the state any more and
/// every further turn of the loop says to quit: nothing is drawn again.
pub proof fn lemma_quit_is_final(s: EditorState, events: Seq<Option<Event>>)
    requires
        s.should_quit,
    ensures
        s.after_events(events) == s,
        s.after_events(events).action() == Action::Quit,
    decreases events.len(),
{
    if events.len() > 0 {
        lemma_quit_is_final(s, events.drop_last());
    }
}

/// The user asks to quit by the quit combination and by nothing else.
pub proof fn lemma_only_the_quit_key_quits(s: EditorState, event: Option<Event>)
    requires
        !s.should_quit,
    ensures
        s.step(event).should_quit <==> is_quit(event),
        s.turn(event).should_quit <==> is_quit(event),
        s.step(event).action() is Quit <==> is_quit(event),
{
}

/// The loop stops in the turn that sees the quit combination: where it
/// first arrives as the event of index `k`, the loop takes that event and
/// the `k` before it, and none after.
pub proof fn lemma_loop_stops_at_quit(s: EditorState, events: Seq<Option<Event>>, k: int)
    requires
        !s.should_quit,
        0 <= k < events.len(),
        is_quit(events[k]),
        forall|j: int| 0 <= j < k ==> !is_quit(#[trigger] events[j]),
    ensures
        s.turns_taken(events) == k + 1,
    decreases k,
{
    lemma_only_the_quit_key_quits(s, events.first());
    if k > 0 {
        let rest = events.drop_first();
        assert(rest[k - 1] == events[k]);
        assert forall|j: int| 0 <= j < k - 1 implies !is_quit(#[trigger] rest[j]) by {
            assert(rest[j] == events[j + 1]);
        }
        lemma_loop_stops_at_quit(s.turn(events.first()), rest, k - 1);
    }
}

/// Without the quit combination the loop takes every event.
pub proof fn lemma_loop_goes_on_without_quit(s: EditorState, events: Seq<Option<Event>>)
    requires
        !s.should_quit,
        forall|j: int| 0 <= j < events.len() ==> !is_quit(#[trigger] events[j]),
    ensures
        s.turns_taken(events) == events.len(),
    decreases events.len(),
{
    if events.len() > 0 {
        lemma_only_the_quit_key_quits(s, events.first());
        let rest = events.drop_first();
        assert forall|j: int| 0 <= j < rest.len() implies !is_quit(#[trigger] rest[j]) by {
            assert(rest[j] == events[j + 1]);
        }
        lemma_loop_goes_on_without_quit(s.turn(events.first()), rest);
    }
}

/// No frame is written in or after the turn that sees the quit
/// combination: the frames that the loop writes are those of the events
/// before it, whatever arrives later.
pub proof fn lemma_no_frame_after_quit(s: EditorState, events: Seq<Option<Event>>, k: int)
    requires
        !s.should_quit,
        0 <= k < events.len(),
        is_quit(events[k]),
        forall|j: int| 0 <= j < k ==> !is_quit(#[trigger] events[j]),
    ensures
        s.frames_written(events) == s.frames_written(events.take(k)),
    decreases k,
{
    lemma_only_the_quit_key_quits(s, events.first());
    if k > 0 {
        let rest = events.drop_first();
        assert(rest[k - 1] == events[k]);
        assert forall|j: int| 0 <= j < k - 1 implies !is_quit(#[trigger] rest[j]) by {
            assert(rest[j] == events[j + 1]);
        }
        lemma_no_frame_after_quit(s.turn(events.first()), rest, k - 1);
        assert(events.take(k).first() == events.first());
        assert(events.take(k).drop_first() =~= rest.take(k - 1));
    } else {
        assert(events.take(0).len() == 0);
    }
}

/// A frame is written only in a turn that asks for one, and it is the
/// frame of the state that the turn has reached.
pub proof fn lemma_frames_follow_render(s: EditorState, event: Option<Event>)
    ensures
        s.turn_frames(event).len() == (if s.step(event).action() is Render {
            1nat
        } else {
            0nat
        }),
        s.step(event).action() is Render ==> s.turn_frames(event)[0] == crate::editor::frame(
            s.step(event).view,
        ) && !s.turn(event).refresh,
        s.turn(event).view == s.step(event).view,
{
}

/// The loop asks for a frame only when one is due, and a drawn frame is no
/// longer due: without an event after it, the loop waits.
pub proof fn lemma_no_idle_redraw(s: EditorState)
    requires
        !s.should_quit,
    ensures
        s.rendered().step(None).action() == Action::Wait,
{
}

} // verus!

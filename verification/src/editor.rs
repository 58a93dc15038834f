//! The editing session: it takes one input event at a time, moves the
//! cursor or changes the text, and tells the driving loop when to draw and
//! when to stop.

use vstd::prelude::*;
use vstd::view::View as _;
use crate::buffer::text_of;
use crate::escape::{
    cursor_goto,
    cursor_hide,
    cursor_show,
    encode_rows,
    encoded_rows,
    goto_sequence,
    hide_sequence,
    show_sequence,
};
use crate::event::{is_printable, Action, Event, KeyCode, KeyEvent};
use crate::state::ViewState;
use crate::viewport::{name_of, Position, View};

verus! {

/// The model of a session: the window, and the two flags of the loop.
#[verifier::ext_equal]
pub struct EditorState {
    /// The window over the buffer.
    pub view: ViewState,
    /// Set once the user has asked to quit; never cleared.
    pub should_quit: bool,
    /// Set when the screen no longer shows the current state.
    pub refresh: bool,
}

impl EditorState {
    /// The state a session starts in. The first frame is still to be drawn.
    pub open spec fn initial(file: Option<Seq<char>>, width: nat, height: nat) -> EditorState {
        EditorState {
            view: ViewState::initial(file, width, height),
            should_quit: false,
            refresh: true,
        }
    }

    /// What holds of every state a session can be in.
    pub open spec fn wf(self) -> bool {
        self.view.wf()
    }

    /// The state after `lines` have been handed over for loading. The text
    /// is loaded once: the first load makes `lines` the text and asks for a
    /// new frame, and every later one changes nothing.
    pub open spec fn after_load(self, lines: Seq<Seq<char>>) -> EditorState {
        if self.view.loaded {
            self
        } else {
            EditorState { view: self.view.after_load(lines), refresh: true, ..self }
        }
    }

    /// The state after the cursor has moved so that the window is now
    /// `view`. The frame has to be drawn again only if an offset or the
    /// cursor's cell on screen has changed.
    pub open spec fn after_move(self, view: ViewState) -> EditorState {
        EditorState { view, refresh: self.refresh || self.view.differs_on_screen(view), ..self }
    }

    /// The state after a navigation key. Other keys change nothing.
    pub open spec fn after_navigation(self, code: KeyCode) -> EditorState {
        self.after_move(self.view.after_key(code))
    }

    /// The state after an arrow key. Other keys change nothing.
    pub open spec fn after_arrow(self, code: KeyCode) -> EditorState {
        if code.is_arrow() {
            self.after_navigation(code)
        } else {
            self
        }
    }

    /// The state after the cursor has been put on screen cell `(col, row)`.
    pub open spec fn after_placing(self, col: nat, row: nat) -> EditorState {
        self.after_move(self.view.placed_at(col, row))
    }

    /// The state after `ch` has been typed. Where the text takes it, the
    /// frame has to be drawn again.
    pub open spec fn after_char(self, ch: char) -> EditorState {
        if self.view.editable() {
            EditorState { view: self.view.after_char(ch), refresh: true, ..self }
        } else {
            self
        }
    }

    /// The state after the return key. Where the text takes the break, the
    /// frame has to be drawn again.
    pub open spec fn after_newline(self) -> EditorState {
        if self.view.editable() {
            EditorState { view: self.view.after_newline(), refresh: true, ..self }
        } else {
            self
        }
    }

    /// The state after a key press.
    ///
    /// Control with `c` asks to quit. A line feed and the return key break
    /// the line. Any other character is typed, the control key
    /// notwithstanding, unless it is a carriage return or a tab, which are
    /// dropped. Navigation keys move the cursor.
    pub open spec fn after_key_event(self, event: KeyEvent) -> EditorState {
        match event.code {
            KeyCode::Char(ch) => if event.ctrl && ch == 'c' {
                EditorState { should_quit: true, ..self }
            } else if ch == '\n' {
                self.after_newline()
            } else if is_printable(ch) {
                self.after_char(ch)
            } else {
                self
            },
            KeyCode::Enter => self.after_newline(),
            KeyCode::Other => self,
            _ => self.after_navigation(event.code),
        }
    }

    /// The state after an input event. A change of the terminal's size
    /// always asks for a new frame.
    pub open spec fn after_event(self, event: Event) -> EditorState {
        match event {
            Event::Key(key) => self.after_key_event(key),
            Event::Resize(width, height) => EditorState {
                view: self.view.resized(width as nat, height as nat),
                refresh: true,
                ..self
            },
        }
    }

    /// The state after one turn of the loop, in which `event` arrived, or
    /// nothing did. Once the user has asked to quit, nothing changes any
    /// more.
    pub open spec fn step(self, event: Option<Event>) -> EditorState {
        match event {
            Some(event) if !self.should_quit => self.after_event(event),
            _ => self,
        }
    }

    /// What the loop has to do in this state.
    pub open spec fn action(self) -> Action {
        if self.should_quit {
            Action::Quit
        } else if self.refresh {
            Action::Render
        } else {
            Action::Wait
        }
    }

    /// The state after the frame has been drawn.
    pub open spec fn rendered(self) -> EditorState {
        EditorState { refresh: false, ..self }
    }

    /// The state after one whole turn of the loop: what arrived is taken,
    /// and where that asks for a frame, the frame is drawn.
    pub open spec fn turn(self, event: Option<Event>) -> EditorState {
        if self.step(event).action() is Render {
            self.step(event).rendered()
        } else {
            self.step(event)
        }
    }

    /// The frames that one whole turn of the loop writes: the frame of the
    /// new state where the turn asks for one, else none.
    pub open spec fn turn_frames(self, event: Option<Event>) -> Seq<Seq<char>> {
        if self.step(event).action() is Render {
            seq![frame(self.step(event).view)]
        } else {
            Seq::empty()
        }
    }

    /// How many of `events` the loop takes, one in each turn, before it
    /// stops: all of them, or those up to the turn that says to quit.
    pub open spec fn turns_taken(self, events: Seq<Option<Event>>) -> nat
        decreases events.len(),
    {
        if events.len() == 0 {
            0
        } else if self.step(events.first()).action() is Quit {
            1
        } else {
            1 + self.turn(events.first()).turns_taken(events.drop_first())
        }
    }

    /// The frames that the loop writes while it takes `events`, in the
    /// order in which it writes them.
    pub open spec fn frames_written(self, events: Seq<Option<Event>>) -> Seq<Seq<char>>
        decreases events.len(),
    {
        if events.len() == 0 || self.step(events.first()).action() is Quit {
            Seq::empty()
        } else {
            self.turn_frames(events.first()) + self.turn(events.first()).frames_written(
                events.drop_first(),
            )
        }
    }

    /// The state after the turns of the loop in which `events` arrived, one
    /// after the other.
    pub open spec fn after_events(self, events: Seq<Option<Event>>) -> EditorState
        decreases events.len(),
    {
        if events.len() == 0 {
            self
        } else {
            self.after_events(events.drop_last()).step(events.last())
        }
    }
}

/// One frame as it is written to the terminal: the cursor is hidden, every
/// row is drawn, the cursor is put in its cell and shown again. A degenerate
/// terminal is written nothing.
pub open spec fn frame(view: ViewState) -> Seq<char> {
    if view.degenerate() {
        Seq::empty()
    } else {
        hide_sequence() + encoded_rows(view.rows(), view.height) + goto_sequence(
            (view.screen_col() + 1) as nat,
            (view.screen_row() + 1) as nat,
        ) + show_sequence()
    }
}

/// An editing session.
pub struct Editor {
    view: View,
    should_quit: bool,
    refresh: bool,
}

impl vstd::view::View for Editor {
    type V = EditorState;

    closed spec fn view(&self) -> EditorState {
        EditorState { view: self.view@, should_quit: self.should_quit, refresh: self.refresh }
    }
}

impl Editor {
    /// There is no text before it is loaded, the cursor is in the buffer
    /// and, unless the terminal is degenerate, on screen.
    pub open spec fn wf(&self) -> bool {
        self@.wf()
    }

    /// Starts a session without text on a terminal of `width` columns and
    /// `height` rows.
    pub fn new(file_name: Option<String>, width: u16, height: u16) -> (editor: Self)
        ensures
            editor@ == EditorState::initial(name_of(file_name), width as nat, height as nat),
            editor.wf(),
    {
        Editor { view: View::new(file_name, width, height), should_quit: false, refresh: true }
    }

    /// Starts a session on `lines` on a terminal of `width` columns and
    /// `height` rows.
    pub fn initialize(lines: Vec<Vec<char>>, width: u16, height: u16) -> (editor: Self)
        ensures
            editor@ == EditorState::initial(None, width as nat, height as nat).after_load(
                text_of(lines),
            ),
            editor.wf(),
    {
        let mut editor = Editor::new(None, width, height);
        editor.load(lines);
        editor
    }

    /// Loads `lines` as the text, once: where the text has been loaded
    /// before, nothing changes, whatever `lines` holds.
    pub fn load(&mut self, lines: Vec<Vec<char>>)
        requires
            old(self).wf(),
        ensures
            final(self)@ == old(self)@.after_load(text_of(lines)),
            final(self).wf(),
    {
        if !self.view.is_loaded() {
            let _ = self.view.display_file(lines);
            self.refresh = true;
        }
    }

    /// The window over the buffer.
    pub fn viewport(&self) -> (view: &View)
        ensures
            view@ == self@.view,
    {
        &self.view
    }

    /// Whether there is no text before it is loaded, the cursor is in the
    /// buffer and, unless the terminal is degenerate, on screen. Every
    /// session made and changed through this type's own functions is so.
    pub fn is_well_formed(&self) -> (ok: bool)
        ensures
            ok == self.wf(),
    {
        self.view.is_well_formed()
    }

    /// Whether the user has asked to quit.
    pub fn should_quit(&self) -> (quit: bool)
        ensures
            quit == self@.should_quit,
    {
        self.should_quit
    }

    /// Whether the screen no longer shows the current state.
    pub fn needs_refresh(&self) -> (refresh: bool)
        ensures
            refresh == self@.refresh,
    {
        self.refresh
    }

    /// The screen cell `(col, row)` the cursor is drawn in; `None` on a
    /// degenerate terminal, which draws no cursor.
    pub fn cursor_position(&self) -> (cell: Option<(u16, u16)>)
        requires
            self.wf(),
        ensures
            self@.view.degenerate() ==> cell.is_none(),
            !self@.view.degenerate() ==> cell == Some(
                (self@.view.screen_col() as u16, self@.view.screen_row() as u16),
            ) && self@.view.screen_col() < self@.view.width && self@.view.screen_row()
                < self@.view.height,
    {
        self.view.screen_position()
    }

    /// Asks for a new frame if the window is no longer as it was when the
    /// cursor stood at `cursor` and the offsets were `row_off` and `col_off`.
    fn note_move(&mut self, cursor: Position, row_off: usize, col_off: usize)
        ensures
            final(self)@.view == old(self)@.view,
            final(self)@.should_quit == old(self)@.should_quit,
            final(self)@.refresh == (old(self)@.refresh || cursor.line != old(self)@.view.line
                || cursor.column != old(self)@.view.column || row_off != old(self)@.view.row_off
                || col_off != old(self)@.view.col_off),
    {
        let now = self.view.cursor_position();
        if now.line != cursor.line || now.column != cursor.column || self.view.row_off() != row_off
            || self.view.col_off() != col_off {
            self.refresh = true;
        }
    }

    /// Puts the cursor on the place in the text that screen cell
    /// `(col, row)` shows, or on the nearest place in the text where the
    /// cell lies beyond it.
    pub fn move_cursor(&mut self, col: u16, row: u16)
        requires
            old(self).wf(),
        ensures
            final(self)@ == old(self)@.after_placing(col as nat, row as nat),
            final(self).wf(),
    {
        let cursor = self.view.cursor_position();
        let row_off = self.view.row_off();
        let col_off = self.view.col_off();
        self.view.place_cursor(col, row);
        self.note_move(cursor, row_off, col_off);
    }

    /// Moves the cursor as an arrow key says. Other keys change nothing.
    pub fn handle_arrow_keys(&mut self, code: KeyCode)
        requires
            old(self).wf(),
        ensures
            final(self)@ == old(self)@.after_arrow(code),
            final(self).wf(),
    {
        let cursor = self.view.cursor_position();
        let row_off = self.view.row_off();
        let col_off = self.view.col_off();
        match code {
            KeyCode::Up => self.view.move_up(),
            KeyCode::Down => self.view.move_down(),
            KeyCode::Left => self.view.move_left(),
            KeyCode::Right => self.view.move_right(),
            _ => {},
        }
        self.note_move(cursor, row_off, col_off);
    }

    /// Moves the cursor as a navigation key says. Other keys change nothing.
    pub fn handle_key_event(&mut self, code: KeyCode)
        requires
            old(self).wf(),
        ensures
            final(self)@ == old(self)@.after_navigation(code),
            final(self).wf(),
    {
        let cursor = self.view.cursor_position();
        let row_off = self.view.row_off();
        let col_off = self.view.col_off();
        match code {
            KeyCode::Up | KeyCode::Down | KeyCode::Left | KeyCode::Right => {
                self.handle_arrow_keys(code);
                return ;
            },
            KeyCode::Home => self.view.move_home(),
            KeyCode::End => self.view.move_end(),
            KeyCode::PageUp => self.view.page_up(),
            KeyCode::PageDown => self.view.page_down(),
            _ => {},
        }
        self.note_move(cursor, row_off, col_off);
    }

    /// Takes a key press: quits, types, breaks the line or moves the cursor.
    pub fn handle_event(&mut self, event: KeyEvent)
        requires
            old(self).wf(),
        ensures
            final(self)@ == old(self)@.after_key_event(event),
            final(self).wf(),
    {
        match event.code {
            KeyCode::Char(ch) => {
                if event.ctrl && ch == 'c' {
                    self.should_quit = true;
                } else if ch == '\n' {
                    self.break_line();
                } else if ch != '\r' && ch != '\t' {
                    self.type_char(ch);
                }
            },
            KeyCode::Enter => self.break_line(),
            KeyCode::Other => {},
            _ => self.handle_key_event(event.code),
        }
    }

    /// Types `ch` at the cursor.
    fn type_char(&mut self, ch: char)
        requires
            old(self).wf(),
        ensures
            final(self)@ == old(self)@.after_char(ch),
            final(self).wf(),
    {
        if self.view.buffer().line_count() > 0 {
            self.view.insert_char(ch);
            self.refresh = true;
        }
    }

    /// Breaks the line at the cursor.
    fn break_line(&mut self)
        requires
            old(self).wf(),
        ensures
            final(self)@ == old(self)@.after_newline(),
            final(self).wf(),
    {
        if self.view.buffer().line_count() > 0 {
            self.view.insert_newline();
            self.refresh = true;
        }
    }

    /// One turn of the loop: takes the event that arrived, if one did, and
    /// says what to do next. Once the user has asked to quit, events are no
    /// longer looked at.
    pub fn run(&mut self, event: Option<Event>) -> (action: Action)
        requires
            old(self).wf(),
        ensures
            final(self)@ == old(self)@.step(event),
            action == final(self)@.action(),
            final(self).wf(),
    {
        if !self.should_quit {
            match event {
                Some(Event::Key(key)) => self.handle_event(key),
                Some(Event::Resize(width, height)) => {
                    self.view.resize(width, height);
                    self.refresh = true;
                },
                None => {},
            }
        }
        if self.should_quit {
            Action::Quit
        } else if self.refresh {
            Action::Render
        } else {
            Action::Wait
        }
    }

    /// One whole turn of the loop: takes the event that arrived, if one
    /// did, says what to do next, and where that is to draw, hands over the
    /// frame and takes it as drawn. Every frame handed over is to be
    /// written, and nothing else is.
    pub fn turn(&mut self, event: Option<Event>) -> (outcome: (Action, Vec<Vec<char>>))
        requires
            old(self).wf(),
        ensures
            final(self)@ == old(self)@.turn(event),
            outcome.0 == old(self)@.step(event).action(),
            text_of(outcome.1) == old(self)@.turn_frames(event),
            final(self).wf(),
    {
        let action = self.run(event);
        let mut frames: Vec<Vec<char>> = Vec::new();
        match action {
            Action::Render => {
                let frame = self.render();
                frames.push(frame);
            },
            _ => {},
        }
        (action, frames)
    }

    /// The rows of the frame as they are written to the terminal.
    pub fn draw_rows(&self) -> (out: Vec<char>)
        ensures
            out@ == encoded_rows(self@.view.rows(), self@.view.rows().len()),
    {
        let rows = self.view.render();
        proof {
            self.view.lemma_size_fits();
            assert(rows@.len() == text_of(rows).len());
        }
        encode_rows(&rows)
    }

    /// The whole frame as it is written to the terminal. Nothing is
    /// changed.
    pub fn refresh_screen(&self) -> (out: Vec<char>)
        requires
            self.wf(),
        ensures
            out@ == frame(self@.view),
    {
        proof {
            self.view.lemma_size_fits();
        }
        match self.view.screen_position() {
            Some((col, row)) => {
                let mut out = cursor_hide();
                let mut rows = self.draw_rows();
                let mut place = cursor_goto(col + 1, row + 1);
                let mut show = cursor_show();
                out.append(&mut rows);
                out.append(&mut place);
                out.append(&mut show);
                out
            },
            None => Vec::new(),
        }
    }

    /// Gives the frame to draw and takes note that the screen is up to
    /// date once it is drawn.
    pub fn render(&mut self) -> (out: Vec<char>)
        requires
            old(self).wf(),
        ensures
            final(self)@ == old(self)@.rendered(),
            out@ == frame(old(self)@.view),
            final(self).wf(),
    {
        self.refresh = false;
        self.refresh_screen()
    }
}

} // verus!

use turf::viewport::{Position, TerminalSize, View};

fn chars(text: &str) -> Vec<char> {
    text.chars().collect()
}

fn numbered(count: usize) -> Vec<Vec<char>> {
    (0..count).map(|index| chars(&format!("line {}", index))).collect()
}

fn view_of(texts: &[&str], width: u16, height: u16) -> View {
    let mut view = View::new(None, width, height);
    view.display_file(texts.iter().map(|text| chars(text)).collect());
    view
}

fn strings(rows: Vec<Vec<char>>) -> Vec<String> {
    rows.into_iter().map(|row| row.into_iter().collect()).collect()
}

fn at(line: usize, column: usize) -> Position {
    Position { line, column }
}

#[test]
fn new_view_starts_at_the_origin() {
    let view = View::new(Some(String::from("notes.txt")), 80, 24);
    assert_eq!(view.file_argument(), &Some(String::from("notes.txt")));
    assert_eq!(view.buffer().line_count(), 0);
    assert_eq!(view.cursor_position(), at(0, 0));
    assert_eq!(view.row_off(), 0);
    assert_eq!(view.col_off(), 0);
    assert_eq!(view.terminal_size(), TerminalSize { height: 24, width: 80 });
    assert_eq!(view.screen_position(), Some((0, 0)));
}

#[test]
fn no_file_differs_from_empty_file() {
    let blank = View::new(None, 80, 24);
    let mut empty = View::new(Some(String::from("empty.txt")), 80, 24);
    assert!(!empty.is_loaded());
    assert_eq!(empty.display_file(Vec::new()), 0);
    assert_eq!(blank.file_argument(), &None);
    assert_eq!(empty.file_argument(), &Some(String::from("empty.txt")));
    assert_eq!(empty.buffer().line_count(), 0);
    assert!(empty.is_loaded());
    assert!(!blank.is_loaded());
    assert_eq!(blank.buffer().line_count(), 0);
}

#[test]
fn short_file_is_padded_with_placeholder_rows() {
    let view = view_of(&["one", "two", "three", "four", "five"], 80, 10);
    assert_eq!(
        strings(view.render()),
        vec!["one", "two", "three", "four", "five", "~", "~", "~", "~", "~"]
    );
}

#[test]
fn display_file_counts_rows_of_text() {
    let mut short = View::new(None, 80, 10);
    assert_eq!(short.display_file(numbered(5)), 5);
    let mut long = View::new(None, 80, 10);
    assert_eq!(long.display_file(numbered(30)), 10);
    for _ in 0..25 {
        long.move_down();
    }
    assert_eq!(long.row_off(), 16);
    assert_eq!(long.display_file(Vec::new()), 10);
    for _ in 0..4 {
        long.move_down();
    }
    assert_eq!(long.row_off(), 20);
    assert_eq!(long.display_file(Vec::new()), 10);
    long.resize(80, 40);
    assert_eq!(long.display_file(Vec::new()), 10);
    let mut flat = View::new(None, 80, 0);
    assert_eq!(flat.display_file(numbered(5)), 0);
}

#[test]
fn loading_the_same_file_again_keeps_the_text() {
    let mut view = View::new(Some(String::from("two.txt")), 80, 10);
    assert_eq!(view.display_file(vec![chars("one"), chars("two")]), 2);
    assert_eq!(view.display_file(vec![chars("one"), chars("two")]), 2);
    assert_eq!(view.buffer().line_count(), 2);
    assert_eq!(strings(view.render())[..3], ["one", "two", "~"]);
    assert!(view.is_well_formed());
}

#[test]
fn text_is_loaded_once() {
    let mut view = View::new(None, 80, 10);
    assert_eq!(view.display_file(numbered(5)), 5);
    view.move_down();
    view.move_end();
    view.insert_char('!');
    assert_eq!(view.display_file(numbered(3)), 5);
    assert_eq!(view.display_file(Vec::new()), 5);
    assert_eq!(view.buffer().line_count(), 5);
    assert_eq!(view.buffer().line_at(1), Some(&chars("line 1!")));
    assert_eq!(view.cursor_position(), at(1, 7));
}

#[test]
fn empty_file_counts_as_loaded() {
    let mut view = View::new(Some(String::from("empty.txt")), 80, 10);
    assert_eq!(view.display_file(Vec::new()), 0);
    assert_eq!(view.display_file(numbered(4)), 0);
    assert_eq!(view.buffer().line_count(), 0);
    assert_eq!(strings(view.render()), vec!["~"; 10]);
    assert!(view.is_well_formed());
}

#[test]
fn down_twenty_five_times_scrolls_six_lines() {
    let mut view = View::new(None, 80, 20);
    view.display_file(numbered(100));
    for _ in 0..25 {
        view.move_down();
    }
    assert_eq!(view.row_off(), 6);
    assert_eq!(view.cursor_position().line, 25);
    assert_eq!(view.screen_position(), Some((0, 19)));
}

#[test]
fn column_clamps_on_a_shorter_line() {
    let mut view = view_of(&["0123456789abc", "short"], 80, 24);
    for _ in 0..10 {
        view.move_right();
    }
    assert_eq!(view.cursor_position(), at(0, 10));
    view.move_down();
    assert_eq!(view.cursor_position(), at(1, 5));
    view.move_up();
    assert_eq!(view.cursor_position(), at(0, 5));
}

#[test]
fn home_resets_the_column_offset() {
    let mut view = view_of(&["a", "b", "c", "0123456789"], 5, 10);
    for _ in 0..3 {
        view.move_down();
    }
    for _ in 0..7 {
        view.move_right();
    }
    assert_eq!(view.cursor_position(), at(3, 7));
    assert_eq!(view.col_off(), 3);
    view.move_home();
    assert_eq!(view.cursor_position(), at(3, 0));
    assert_eq!(view.col_off(), 0);
    assert_eq!(view.screen_position(), Some((0, 3)));
}

#[test]
fn end_goes_to_the_end_of_the_line() {
    let mut view = view_of(&["0123456789"], 4, 10);
    view.move_end();
    assert_eq!(view.cursor_position(), at(0, 10));
    assert_eq!(view.col_off(), 7);
    assert_eq!(view.screen_position(), Some((3, 0)));
}

#[test]
fn up_stops_at_the_first_line_and_down_at_the_last() {
    let mut view = view_of(&["a", "b"], 80, 24);
    view.move_up();
    assert_eq!(view.cursor_position(), at(0, 0));
    view.move_down();
    view.move_down();
    view.move_down();
    assert_eq!(view.cursor_position(), at(1, 0));
}

#[test]
fn left_at_line_start_joins_the_line_above() {
    let mut view = view_of(&["abc", "de"], 80, 24);
    view.move_left();
    assert_eq!(view.cursor_position(), at(0, 0));
    view.move_down();
    view.move_left();
    assert_eq!(view.cursor_position(), at(0, 3));
    view.move_left();
    assert_eq!(view.cursor_position(), at(0, 2));
}

#[test]
fn right_at_line_end_joins_the_line_below() {
    let mut view = view_of(&["ab", "c"], 80, 24);
    view.move_right();
    view.move_right();
    assert_eq!(view.cursor_position(), at(0, 2));
    view.move_right();
    assert_eq!(view.cursor_position(), at(1, 0));
    view.move_right();
    assert_eq!(view.cursor_position(), at(1, 1));
    view.move_right();
    assert_eq!(view.cursor_position(), at(1, 1));
}

#[test]
fn page_moves_by_the_height_of_the_terminal() {
    let mut view = View::new(None, 80, 20);
    view.display_file(numbered(100));
    view.page_down();
    assert_eq!(view.cursor_position().line, 20);
    assert_eq!(view.row_off(), 1);
    view.page_down();
    assert_eq!(view.cursor_position().line, 40);
    assert_eq!(view.row_off(), 21);
    view.page_up();
    assert_eq!(view.cursor_position().line, 20);
    assert_eq!(view.row_off(), 20);
    view.page_up();
    view.page_up();
    assert_eq!(view.cursor_position().line, 0);
    assert_eq!(view.row_off(), 0);
    for _ in 0..10 {
        view.page_down();
    }
    assert_eq!(view.cursor_position().line, 99);
    assert_eq!(view.row_off(), 80);
}

#[test]
fn page_moves_clamp_the_column() {
    let mut view = view_of(&["0123456789", "a", "b", "cd"], 80, 3);
    view.move_end();
    view.page_down();
    assert_eq!(view.cursor_position(), at(3, 2));
    view.page_up();
    assert_eq!(view.cursor_position(), at(0, 2));
}

#[test]
fn empty_buffer_keeps_the_cursor_at_the_origin() {
    let mut view = View::new(None, 80, 24);
    view.move_up();
    view.move_down();
    view.move_left();
    view.move_right();
    view.move_home();
    view.move_end();
    view.page_up();
    view.page_down();
    view.insert_char('x');
    view.insert_newline();
    view.place_cursor(5, 5);
    assert_eq!(view.cursor_position(), at(0, 0));
    assert_eq!(view.buffer().line_count(), 0);
    assert_eq!(view.row_off(), 0);
    assert_eq!(view.col_off(), 0);
}

#[test]
fn handle_scroll_on_a_shown_cursor_changes_nothing() {
    let mut view = View::new(None, 80, 20);
    view.display_file(numbered(100));
    for _ in 0..30 {
        view.move_down();
    }
    assert_eq!(view.row_off(), 11);
    view.handle_scroll();
    assert_eq!(view.row_off(), 11);
    assert_eq!(view.col_off(), 0);
    assert_eq!(view.cursor_position(), at(30, 0));
}

#[test]
fn scrolling_back_up_follows_the_cursor() {
    let mut view = View::new(None, 80, 20);
    view.display_file(numbered(100));
    for _ in 0..30 {
        view.move_down();
    }
    for _ in 0..19 {
        view.move_up();
    }
    assert_eq!(view.row_off(), 11);
    view.move_up();
    assert_eq!(view.row_off(), 10);
    assert_eq!(view.screen_position(), Some((0, 0)));
}

#[test]
fn short_buffer_never_scrolls_down() {
    let mut view = view_of(&["a", "b", "c"], 80, 10);
    for _ in 0..10 {
        view.move_down();
        assert_eq!(view.row_off(), 0);
        assert_eq!(view.col_off(), 0);
    }
    view.page_down();
    assert_eq!(view.row_off(), 0);
    assert_eq!(view.cursor_position(), at(2, 0));
}

#[test]
fn narrow_terminal_scrolls_sideways_without_underflow() {
    let mut view = view_of(&["0123456789"], 1, 1);
    for column in 1..=10usize {
        view.move_right();
        assert_eq!(view.col_off(), column);
        assert_eq!(view.screen_position(), Some((0, 0)));
    }
    for column in (0..10usize).rev() {
        view.move_left();
        assert_eq!(view.col_off(), column);
    }
}

#[test]
fn degenerate_terminal_leaves_the_offsets_alone() {
    let mut view = View::new(None, 80, 5);
    view.display_file(numbered(50));
    for _ in 0..10 {
        view.move_down();
    }
    assert_eq!(view.row_off(), 6);
    view.resize(80, 0);
    view.page_down();
    view.move_up();
    view.move_up();
    assert_eq!(view.row_off(), 6);
    assert_eq!(view.col_off(), 0);
    assert_eq!(view.screen_position(), None);
    assert_eq!(view.render().len(), 0);
    view.resize(0, 5);
    for _ in 0..10 {
        view.move_up();
    }
    assert_eq!(view.row_off(), 6);
    assert_eq!(view.render().len(), 0);
    assert_eq!(view.cursor_position().line, 0);
    view.resize(80, 5);
    assert_eq!(view.row_off(), 0);
    assert_eq!(view.screen_position(), Some((0, 0)));
}

#[test]
fn resize_twice_is_resize_once() {
    let mut view = View::new(None, 80, 20);
    view.display_file(numbered(100));
    for _ in 0..30 {
        view.move_down();
    }
    view.move_end();
    let first = strings(view.reload_screen(4, 7));
    let once = (view.cursor_position(), view.row_off(), view.col_off(), view.terminal_size());
    let second = strings(view.reload_screen(4, 7));
    let twice = (view.cursor_position(), view.row_off(), view.col_off(), view.terminal_size());
    assert_eq!(once, twice);
    assert_eq!(first, second);
    assert_eq!(once, (at(30, 7), 24, 4, TerminalSize { height: 7, width: 4 }));
}

#[test]
fn resize_never_moves_the_cursor_in_the_text() {
    let mut view = View::new(None, 80, 20);
    view.display_file(numbered(100));
    for _ in 0..30 {
        view.move_down();
    }
    view.resize(10, 3);
    assert_eq!(view.cursor_position(), at(30, 0));
    assert_eq!(view.row_off(), 28);
    view.resize(10, 50);
    assert_eq!(view.cursor_position(), at(30, 0));
    assert_eq!(view.row_off(), 28);
}

#[test]
fn reload_screen_draws_the_window() {
    let mut view = view_of(&["zero", "one", "two", "three"], 80, 10);
    view.move_down();
    view.move_down();
    view.move_down();
    assert_eq!(strings(view.reload_screen(3, 2)), vec!["two", "thr"]);
    assert_eq!(view.row_off(), 2);
}

#[test]
fn display_line_shows_the_columns_in_view() {
    let mut view = view_of(&["0123456789", "abc", "abcdef"], 4, 5);
    view.move_end();
    assert_eq!(view.col_off(), 7);
    assert_eq!(view.display_line(0), chars("789"));
    assert_eq!(view.display_line(1), chars(""));
    assert_eq!(view.display_line(2), chars(""));
    assert_eq!(view.display_line(3), chars("~"));
    view.move_left();
    view.move_left();
    view.move_left();
    view.move_left();
    assert_eq!(view.col_off(), 6);
    assert_eq!(view.display_line(0), chars("6789"));
    view.move_home();
    assert_eq!(view.display_line(0), chars("0123"));
    assert_eq!(view.display_line(1), chars("abc"));
    assert_eq!(view.display_line(2), chars("abcd"));
    assert_eq!(view.display_line(u16::MAX), chars("~"));
}

#[test]
fn render_leaves_the_view_as_it_was() {
    let mut view = View::new(None, 10, 4);
    view.display_file(numbered(9));
    for _ in 0..6 {
        view.move_down();
    }
    let before = (view.cursor_position(), view.row_off(), view.col_off());
    assert_eq!(strings(view.render()), vec!["line 3", "line 4", "line 5", "line 6"]);
    assert_eq!((view.cursor_position(), view.row_off(), view.col_off()), before);
}

#[test]
fn cursor_stays_on_screen_and_offsets_in_bounds() {
    let mut view = view_of(&["", "0123456789", "ab", "", "0123456789abcdef"], 4, 2);
    let moves: [fn(&mut View); 8] = [
        View::move_down,
        View::move_end,
        View::move_down,
        View::page_down,
        View::move_end,
        View::move_up,
        View::move_left,
        View::page_up,
    ];
    for round in 0..40 {
        moves[(round * 3) % moves.len()](&mut view);
        let cursor = view.cursor_position();
        let (col, row) = view.screen_position().unwrap();
        assert!(col < 4 && row < 2);
        assert_eq!(cursor.line, view.row_off() + row as usize);
        assert_eq!(cursor.column, view.col_off() + col as usize);
        assert!(view.row_off() <= 4);
        assert!(view.col_off() <= view.buffer().line_length(cursor.line));
        assert!(cursor.column <= view.buffer().line_length(cursor.line));
    }
}

#[test]
fn insert_char_moves_the_cursor_right() {
    let mut view = view_of(&["ac"], 80, 24);
    view.move_right();
    view.insert_char('b');
    assert_eq!(view.buffer().line_at(0), Some(&chars("abc")));
    assert_eq!(view.cursor_position(), at(0, 2));
}

#[test]
fn insert_newline_moves_to_the_start_of_the_new_line() {
    let mut view = view_of(&["abcd", "e"], 3, 1);
    view.move_end();
    view.move_left();
    assert_eq!(view.col_off(), 2);
    view.insert_newline();
    assert_eq!(view.buffer().line_count(), 3);
    assert_eq!(view.buffer().line_at(0), Some(&chars("abc")));
    assert_eq!(view.buffer().line_at(1), Some(&chars("d")));
    assert_eq!(view.buffer().line_at(2), Some(&chars("e")));
    assert_eq!(view.cursor_position(), at(1, 0));
    assert_eq!(view.row_off(), 1);
    assert_eq!(view.col_off(), 0);
}

#[test]
fn place_cursor_picks_the_text_under_a_cell() {
    let mut view = View::new(None, 10, 5);
    view.display_file(numbered(50));
    for _ in 0..20 {
        view.move_down();
    }
    assert_eq!(view.row_off(), 16);
    view.place_cursor(3, 2);
    assert_eq!(view.cursor_position(), at(18, 3));
    view.place_cursor(9, 0);
    assert_eq!(view.cursor_position(), at(16, 7));
    view.place_cursor(0, u16::MAX);
    assert_eq!(view.cursor_position(), at(49, 0));
    assert_eq!(view.row_off(), 45);
}

#[test]
fn column_offset_follows_the_cursor_line_not_the_top_line() {
    let mut view = view_of(&["", "0123456789"], 5, 10);
    view.move_down();
    view.move_end();
    assert_eq!(view.cursor_position(), at(1, 10));
    assert_eq!(view.row_off(), 0);
    assert_eq!(view.col_off(), 6);
    assert!(view.col_off() <= view.buffer().line_length(1));
    assert!(view.col_off() > view.buffer().line_length(view.row_off()));
    assert!(view.is_well_formed());
}

#[test]
fn every_move_keeps_the_view_well_formed() {
    let mut view = view_of(&["", "0123456789", "ab", "", "0123456789abcdef"], 3, 2);
    assert!(view.is_well_formed());
    let moves: [fn(&mut View); 10] = [
        View::move_down,
        View::move_end,
        View::page_down,
        View::move_right,
        View::insert_newline,
        View::move_up,
        View::move_left,
        View::page_up,
        View::move_home,
        View::handle_scroll,
    ];
    for round in 0..100 {
        moves[(round * 7) % moves.len()](&mut view);
        view.insert_char('x');
        assert!(view.is_well_formed());
        if round % 9 == 0 {
            view.resize((round % 4) as u16, (round % 5) as u16);
            assert!(view.is_well_formed());
        }
    }
}

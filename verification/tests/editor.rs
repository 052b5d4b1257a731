use miv::editor::{Editor, EditorAction};
use miv::input::{Input, Key};
use miv::screen::Screen;
use miv::stdin_raw_mode::{FlagBits, StdinRawMode, TerminalAttributes, TerminalError};

fn input() -> Input {
    let attributes = TerminalAttributes {
        input_flags: 0o2402,
        output_flags: 0o5,
        control_flags: 0o277,
        local_flags: 0o105073,
        min_bytes: 1,
        timeout: 0,
    };
    let bits = FlagBits {
        brkint: 0o2,
        ixon: 0o2000,
        inpck: 0o20,
        istrip: 0o40,
        icrnl: 0o400,
        opost: 0o1,
        cs8: 0o60,
        echo: 0o10,
        icanon: 0o2,
        isig: 0o1,
        iexten: 0o100000,
    };
    Input::new(StdinRawMode::with_bits(attributes, bits, false))
}

fn editor(width: usize, height: usize, lines: &[&str]) -> Editor {
    let mut editor = Editor::with_screen(Screen::with_size(width, height, 4), input());
    let lines: Vec<String> = lines.iter().map(|line| line.to_string()).collect();
    editor.editor_open_with_file("notes.txt".to_string(), Some(lines));
    editor
}

fn place(editor: &Editor) -> (usize, usize, usize, usize) {
    (editor.cursor_row(), editor.cursor_column(), editor.row_offset(), editor.column_offset())
}

fn frame(editor: &Editor) -> String {
    String::from_utf8(editor.screen().get_frame().clone()).unwrap()
}

fn line_len(editor: &Editor, row: usize) -> usize {
    editor.content().line_len(row)
}

fn assert_framed(editor: &Editor) {
    assert!(editor.is_framed());
    assert!(editor.kept_column_offset() <= editor.kept_column());
    let (row, column, row_offset, column_offset) = place(editor);
    let (_, _, width, height) = editor.visible_region();
    assert!(row == 0 || row < editor.content().len());
    assert!(column <= line_len(editor, row));
    assert!(row_offset <= row);
    assert!(column_offset <= column);
    if height >= 1 {
        assert!(row < row_offset + height);
    }
    if width >= 1 {
        assert!(column < column_offset + width);
    }
}

#[test]
fn new_editor_shows_the_welcome_line() {
    let mut editor = Editor::with_screen(Screen::with_size(80, 3, 4), input());
    assert_eq!(place(&editor), (0, 0, 0, 0));
    assert_eq!(editor.filename(), "logs/test-file.txt");
    assert_eq!(
        editor.content().lines,
        vec!["Welcome to Miv editor -- version 0.0.1".to_string()]
    );
    editor.editor_open();
    assert_eq!(
        frame(&editor),
        "\x1b[?25l\x1b[HWelcome to Miv editor -- version 0.0.1\x1b[K\r\n~\x1b[K\r\n~\x1b[K\x1b[1;1H\x1b[?25h"
    );
}

#[test]
fn opening_a_file_shows_its_lines() {
    let editor = editor(80, 2, &["alpha", "beta", "gamma"]);
    assert_eq!(editor.filename(), "notes.txt");
    assert_eq!(editor.content().len(), 3);
    assert_eq!(editor.content().num_rows, 3);
    assert_eq!(place(&editor), (0, 0, 0, 0));
    assert_eq!(frame(&editor), "\x1b[?25l\x1b[Halpha\x1b[K\r\nbeta\x1b[K\x1b[1;1H\x1b[?25h");
}

#[test]
fn file_that_cannot_be_read_leaves_an_empty_buffer() {
    let mut editor = Editor::with_screen(Screen::with_size(80, 2, 4), input());
    editor.editor_open_with_file("missing.txt".to_string(), None);
    assert_eq!(editor.filename(), "missing.txt");
    assert_eq!(editor.content().len(), 0);
    assert_eq!(editor.content().num_rows, 0);
    assert_eq!(
        frame(&editor),
        "\x1b[?25l\x1b[HKilo editor -- version 0.0.1\x1b[K\r\n~\x1b[K\x1b[1;1H\x1b[?25h"
    );
    // The empty buffer counts as one empty line: no key moves the cursor off it.
    for key in [Key::ArrowDown, Key::ArrowRight, Key::ArrowUp, Key::ArrowLeft] {
        assert_eq!(editor.editor_process_key(key), EditorAction::Redraw);
        assert_eq!(place(&editor), (0, 0, 0, 0));
    }
}

#[test]
fn opening_a_file_sends_the_cursor_home() {
    let mut editor = editor(80, 2, &["alpha", "beta", "gamma"]);
    editor.move_cursor(Key::ArrowDown);
    editor.move_cursor(Key::ArrowDown);
    editor.move_cursor(Key::ArrowRight);
    assert_eq!(place(&editor), (2, 1, 1, 0));
    editor.editor_open_file(Some(vec!["x".to_string()]));
    assert_eq!(place(&editor), (0, 0, 0, 0));
    assert_eq!(editor.content().lines, vec!["x".to_string()]);
    assert_eq!(editor.filename(), "notes.txt");
}

#[test]
fn down_twice_on_two_rows_scrolls_by_one() {
    let mut editor = editor(80, 2, &["zero", "one", "two"]);
    assert_eq!(editor.editor_process_key(Key::ArrowDown), EditorAction::Redraw);
    assert_eq!(place(&editor), (1, 0, 0, 0));
    assert_eq!(editor.editor_process_key(Key::ArrowDown), EditorAction::Redraw);
    assert_eq!(place(&editor), (2, 0, 1, 0));
    assert_eq!(editor.row_offset(), 1);
    let drawn = frame(&editor);
    assert_eq!(drawn, "\x1b[?25l\x1b[Hone\x1b[K\r\ntwo\x1b[K\x1b[2;1H\x1b[?25h");
    assert!(!drawn.contains('~'));
    assert!(!drawn.contains("zero"));
}

#[test]
fn down_stops_at_the_last_line_and_up_at_the_first() {
    let mut editor = editor(80, 2, &["zero", "one", "two"]);
    for _ in 0..5 {
        editor.move_cursor(Key::ArrowDown);
    }
    assert_eq!(place(&editor), (2, 0, 1, 0));
    editor.move_cursor(Key::ArrowUp);
    assert_eq!(place(&editor), (1, 0, 1, 0));
    editor.move_cursor(Key::ArrowUp);
    assert_eq!(place(&editor), (0, 0, 0, 0));
    editor.move_cursor(Key::ArrowUp);
    assert_eq!(place(&editor), (0, 0, 0, 0));
}

#[test]
fn letters_do_not_move_the_cursor() {
    let mut editor = editor(80, 5, &["zero", "one", "two"]);
    editor.move_cursor(Key::ArrowDown);
    editor.move_cursor(Key::ArrowRight);
    assert_eq!(place(&editor), (1, 1, 0, 0));
    for byte in [b'j', b'k', b'h', b'l', b'x', b'q', b' ', 0, 0x7f, 0xff] {
        editor.move_cursor(Key::Other(byte));
        assert_eq!(place(&editor), (1, 1, 0, 0));
        assert_eq!(editor.editor_process_key(Key::Other(byte)), EditorAction::Redraw);
        assert_eq!(place(&editor), (1, 1, 0, 0));
        assert_eq!((editor.kept_column(), editor.kept_column_offset()), (1, 0));
    }
    editor.move_cursor(Key::Esc);
    editor.move_cursor(Key::NoKey);
    assert_eq!(place(&editor), (1, 1, 0, 0));
}

#[test]
fn letters_keep_a_column_that_lies_past_the_line() {
    let mut editor = editor(80, 5, &["a long line", "ab"]);
    for _ in 0..7 {
        editor.move_cursor(Key::ArrowRight);
    }
    editor.move_cursor(Key::ArrowDown);
    for byte in [b'h', b'l', b'j', b'k'] {
        assert_eq!(editor.editor_process_key(Key::Other(byte)), EditorAction::Redraw);
        assert_eq!(place(&editor), (1, 2, 0, 0));
        assert_eq!(editor.kept_column(), 7);
    }
}

#[test]
fn right_goes_to_the_place_behind_the_last_byte() {
    let mut editor = editor(80, 5, &["ab"]);
    editor.move_cursor(Key::ArrowRight);
    editor.move_cursor(Key::ArrowRight);
    assert_eq!(place(&editor), (0, 2, 0, 0));
    editor.move_cursor(Key::ArrowRight);
    assert_eq!(place(&editor), (0, 2, 0, 0));
    editor.move_cursor(Key::ArrowLeft);
    editor.move_cursor(Key::ArrowLeft);
    editor.move_cursor(Key::ArrowLeft);
    assert_eq!(place(&editor), (0, 0, 0, 0));
}

#[test]
fn window_follows_the_cursor_to_the_right_and_back() {
    let mut editor = editor(3, 1, &["abcdefgh"]);
    for expected in [(1, 0), (2, 0), (3, 1), (4, 2), (5, 3)] {
        editor.move_cursor(Key::ArrowRight);
        assert_eq!((editor.cursor_column(), editor.column_offset()), expected);
    }
    for expected in [(4, 3), (3, 3), (2, 2), (1, 1), (0, 0), (0, 0)] {
        editor.move_cursor(Key::ArrowLeft);
        assert_eq!((editor.cursor_column(), editor.column_offset()), expected);
    }
}

#[test]
fn down_onto_a_shorter_line_snaps_the_column() {
    let mut editor = editor(80, 5, &["a long line", "ab", "another long line"]);
    for _ in 0..7 {
        editor.move_cursor(Key::ArrowRight);
    }
    assert_eq!(place(&editor), (0, 7, 0, 0));
    editor.move_cursor(Key::ArrowDown);
    assert_eq!(place(&editor), (1, 2, 0, 0));
    assert!(editor.cursor_column() <= line_len(&editor, 1));
}

#[test]
fn column_survives_a_walk_over_a_shorter_line() {
    let mut editor = editor(80, 5, &["a long line", "ab", "another long line"]);
    for _ in 0..7 {
        editor.move_cursor(Key::ArrowRight);
    }
    editor.move_cursor(Key::ArrowDown);
    assert_eq!(editor.cursor_column(), 2);
    assert_eq!(editor.kept_column(), 7);
    editor.move_cursor(Key::ArrowDown);
    assert_eq!(place(&editor), (2, 7, 0, 0));
    editor.move_cursor(Key::ArrowUp);
    editor.move_cursor(Key::ArrowUp);
    assert_eq!(place(&editor), (0, 7, 0, 0));
}

#[test]
fn left_and_right_start_from_the_shown_column() {
    let mut editor = editor(80, 5, &["a long line", "ab", "another long line"]);
    for _ in 0..7 {
        editor.move_cursor(Key::ArrowRight);
    }
    editor.move_cursor(Key::ArrowDown);
    editor.move_cursor(Key::ArrowLeft);
    assert_eq!(place(&editor), (1, 1, 0, 0));
    assert_eq!(editor.kept_column(), 1);
    editor.move_cursor(Key::ArrowDown);
    assert_eq!(place(&editor), (2, 1, 0, 0));
    editor.move_cursor(Key::ArrowUp);
    editor.move_cursor(Key::ArrowRight);
    editor.move_cursor(Key::ArrowRight);
    assert_eq!(place(&editor), (1, 2, 0, 0));
    assert_eq!(editor.kept_column(), 2);
}

#[test]
fn snapping_pulls_the_window_back_where_the_line_ends_before_it() {
    let mut editor = editor(4, 5, &["a long line", "ab", ""]);
    for _ in 0..9 {
        editor.move_cursor(Key::ArrowRight);
    }
    assert_eq!(place(&editor), (0, 9, 0, 6));
    editor.move_cursor(Key::ArrowDown);
    // The line's end, column 2, lies before the window's first column.
    assert_eq!(place(&editor), (1, 2, 0, 2));
    assert_eq!((editor.kept_column(), editor.kept_column_offset()), (9, 6));
    editor.move_cursor(Key::ArrowDown);
    assert_eq!(place(&editor), (2, 0, 0, 0));
    editor.move_cursor(Key::ArrowUp);
    assert_eq!(place(&editor), (1, 2, 0, 2));
    editor.move_cursor(Key::ArrowLeft);
    assert_eq!(place(&editor), (1, 1, 0, 1));
    assert_eq!((editor.kept_column(), editor.kept_column_offset()), (1, 1));
}

#[test]
fn snapping_keeps_the_window_where_it_still_shows_the_cursor() {
    let mut editor = editor(4, 5, &["a long line", "abcdefgh"]);
    for _ in 0..10 {
        editor.move_cursor(Key::ArrowRight);
    }
    assert_eq!(place(&editor), (0, 10, 0, 7));
    editor.editor_process_key(Key::ArrowDown);
    assert_eq!(place(&editor), (1, 8, 0, 7));
    assert_eq!(
        frame(&editor),
        "\x1b[?25l\x1b[Hline\x1b[K\r\nh\x1b[K\r\n~\x1b[K\r\n~\x1b[K\r\n~\x1b[K\x1b[2;2H\x1b[?25h"
    );
}

#[test]
fn frame_shows_the_cursor_held_to_its_line() {
    let mut editor = editor(4, 2, &["a long line", "ab"]);
    for _ in 0..9 {
        editor.move_cursor(Key::ArrowRight);
    }
    editor.editor_process_key(Key::ArrowDown);
    // Kept are column 9 and offset 6; shown are the line's end, column 2, and offset 2.
    assert_eq!(place(&editor), (1, 2, 0, 2));
    assert_eq!(frame(&editor), "\x1b[?25l\x1b[Hlong\x1b[K\r\n\x1b[K\x1b[2;1H\x1b[?25h");
}

#[test]
fn no_key_changes_nothing_and_draws_nothing() {
    let mut editor = editor(80, 2, &["zero", "one", "two"]);
    editor.editor_process_key(Key::ArrowDown);
    editor.editor_process_key(Key::ArrowRight);
    let before = place(&editor);
    let drawn = frame(&editor);
    for _ in 0..10 {
        assert_eq!(editor.editor_process_key(Key::NoKey), EditorAction::Idle);
        assert_eq!(place(&editor), before);
        assert_eq!(editor.visible_region(), (0, 0, 80, 2));
        assert_eq!(frame(&editor), drawn);
    }
}

#[test]
fn control_q_and_control_c_quit() {
    let mut editor = editor(80, 2, &["zero", "one"]);
    let drawn = frame(&editor);
    assert_eq!(editor.editor_process_key(Key::Other(0x11)), EditorAction::Quit);
    assert_eq!(editor.editor_process_key(Key::Other(0x03)), EditorAction::Quit);
    assert_eq!(place(&editor), (0, 0, 0, 0));
    assert_eq!(frame(&editor), drawn);
}

#[test]
fn other_keys_redraw_without_moving() {
    let mut editor = editor(80, 2, &["zero", "one"]);
    editor.editor_process_key(Key::ArrowDown);
    let drawn = frame(&editor);
    assert_eq!(editor.editor_process_key(Key::Esc), EditorAction::Redraw);
    assert_eq!(editor.editor_process_key(Key::Other(b'x')), EditorAction::Redraw);
    assert_eq!(editor.editor_process_key(Key::Other(0)), EditorAction::Redraw);
    assert_eq!(place(&editor), (1, 0, 0, 0));
    assert_eq!(frame(&editor), drawn);
}

#[test]
fn key_draws_the_cursor_where_it_went() {
    let mut editor = editor(80, 2, &["a\tb", "c"]);
    editor.editor_process_key(Key::ArrowRight);
    editor.editor_process_key(Key::ArrowRight);
    assert_eq!(place(&editor), (0, 2, 0, 0));
    assert_eq!(frame(&editor), "\x1b[?25l\x1b[Ha    b\x1b[K\r\nc\x1b[K\x1b[1;6H\x1b[?25h");
}

#[test]
fn screen_without_rows_ignores_up_and_down() {
    let mut editor = editor(80, 0, &["zero", "one"]);
    assert_eq!(editor.editor_process_key(Key::ArrowDown), EditorAction::Redraw);
    assert_eq!(place(&editor), (0, 0, 0, 0));
    assert_eq!(editor.editor_process_key(Key::ArrowUp), EditorAction::Redraw);
    assert_eq!(place(&editor), (0, 0, 0, 0));
    editor.editor_process_key(Key::ArrowRight);
    assert_eq!(place(&editor), (0, 1, 0, 0));
}

#[test]
fn screen_without_columns_ignores_left_and_right() {
    let mut editor = editor(0, 3, &["zero", "one"]);
    editor.editor_process_key(Key::ArrowRight);
    assert_eq!(place(&editor), (0, 0, 0, 0));
    editor.editor_process_key(Key::ArrowLeft);
    assert_eq!(place(&editor), (0, 0, 0, 0));
    editor.editor_process_key(Key::ArrowDown);
    assert_eq!(place(&editor), (1, 0, 0, 0));
}

#[test]
fn screen_of_one_cell_follows_the_cursor() {
    let mut editor = editor(1, 1, &["ab", "cd"]);
    editor.editor_process_key(Key::ArrowDown);
    assert_eq!(place(&editor), (1, 0, 1, 0));
    editor.editor_process_key(Key::ArrowRight);
    assert_eq!(place(&editor), (1, 1, 1, 1));
    assert_eq!(frame(&editor), "\x1b[?25l\x1b[Hd\x1b[K\x1b[1;1H\x1b[?25h");
    editor.editor_process_key(Key::ArrowUp);
    assert_eq!(place(&editor), (0, 1, 0, 1));
}

#[test]
fn window_shows_the_cursor_after_every_key() {
    let lines = ["first line here", "", "x", "a\tline\twith tabs", "the longest line of them all", "z"];
    let keys = [
        Key::ArrowDown,
        Key::ArrowRight,
        Key::ArrowUp,
        Key::ArrowLeft,
        Key::Esc,
        Key::Other(b'j'),
    ];
    for (width, height) in [(1, 1), (2, 3), (5, 2), (80, 24), (3, 0), (0, 3), (0, 0)] {
        let mut editor = editor(width, height, &lines);
        // A fixed walk that visits every key in many orders.
        let mut seed: usize = 12345;
        for _ in 0..400 {
            seed = (seed * 1103515245 + 12345) % 2147483648;
            let key = keys[(seed / 65536) % keys.len()];
            editor.editor_process_key(key);
            assert_framed(&editor);
        }
    }
}

#[test]
fn column_is_held_to_the_line() {
    let editor = editor(80, 2, &["zero"]);
    assert_eq!(editor.get_horizontal_cursor_position("abc", 2, 0), (0, 2));
    assert_eq!(editor.get_horizontal_cursor_position("abc", 3, 1), (1, 3));
    assert_eq!(editor.get_horizontal_cursor_position("abc", 9, 1), (1, 3));
    assert_eq!(editor.get_horizontal_cursor_position("abc", 9, 3), (3, 3));
    assert_eq!(editor.get_horizontal_cursor_position("abc", 9, 7), (3, 3));
    assert_eq!(editor.get_horizontal_cursor_position("", 5, 2), (0, 0));
    assert_eq!(editor.get_horizontal_cursor_position("", 0, 0), (0, 0));
}

#[test]
fn closing_clears_the_screen() {
    let mut editor = editor(80, 2, &["zero", "one"]);
    editor.editor_process_key(Key::ArrowDown);
    editor.editor_close();
    assert_eq!(editor.screen().get_frame().as_slice(), b"\x1b[2J\x1b[H");
    assert_eq!(place(&editor), (1, 0, 0, 0));
}

#[test]
fn editor_keeps_its_input() {
    let editor = editor(80, 2, &["zero"]);
    let stdin = editor.input().stdin();
    assert!(!stdin.is_blocking());
    assert_eq!(stdin.restore().local_flags, 0o105073);
    assert_eq!(stdin.enable_raw_mode().local_flags, 0o5060);
}

#[test]
fn editor_on_the_real_window() {
    // What the terminal says is not in the test's hands: an editor comes back, or the one error.
    match Editor::new(input(), 4) {
        Ok(editor) => {
            assert!(editor.is_framed());
            assert_eq!(place(&editor), (0, 0, 0, 0));
            assert_eq!(editor.screen().get_tab_width(), 4);
            assert_eq!(editor.content().len(), 1);
        }
        Err(error) => assert_eq!(error, TerminalError::NoWindowSize),
    }
}

use kilo::append_buffer::AppendBuffer;
use kilo::editor::Editor;
use kilo::keys::Key;
use kilo::screen::{STATUS_NAME_WIDTH, WELCOME};

fn editor(columns: usize, lines: usize) -> Editor {
    Editor::from_dimensions(Some((columns, lines))).unwrap()
}

fn drawn_rows(e: &Editor) -> Vec<String> {
    let mut buffer = AppendBuffer::new();
    e.editor_draw_rows(&mut buffer);
    let text = buffer.into_string();
    let mut lines: Vec<String> = text.split("\x1b[K\r\n").map(|s| s.to_string()).collect();
    assert_eq!(lines.pop().as_deref(), Some(""));
    lines
}

fn status_bar(e: &Editor) -> String {
    let mut buffer = AppendBuffer::new();
    e.editor_draw_status_bar(&mut buffer);
    let text = buffer.into_string();
    let text = text.strip_prefix("\x1b[7m").unwrap();
    text.strip_suffix("\x1b[m\r\n").unwrap().to_string()
}

fn message_bar(e: &Editor, now: u64) -> String {
    let mut buffer = AppendBuffer::new();
    e.editor_draw_message_bar(&mut buffer, now);
    buffer.into_string()
}

#[test]
fn append_buffer_gathers_text() {
    let mut buffer = AppendBuffer::new();
    assert_eq!(buffer.as_str(), "");
    buffer.push("ab");
    buffer.push("");
    buffer.push("\x1b[K");
    buffer.push_chars(&vec!['w', 'x', 'y', 'z'], 1, 3);
    buffer.push_chars(&vec!['q'], 1, 1);
    assert_eq!(buffer.as_str(), "ab\x1b[Kxy");
    assert_eq!(buffer.into_string(), "ab\x1b[Kxy");
}

#[test]
fn welcome_banner_on_an_empty_document() {
    let e = editor(80, 26);
    let lines = drawn_rows(&e);
    assert_eq!(lines.len(), 24);
    for (y, line) in lines.iter().enumerate() {
        if y == 8 {
            assert_eq!(line, &format!("~{}Kilo editor -- version 0.0.1", " ".repeat(25)));
            assert_eq!(line.len(), 26 + 28);
        } else {
            assert_eq!(line, "~");
        }
    }
    assert_eq!(WELCOME, "Kilo editor -- version 0.0.1");
}

#[test]
fn welcome_banner_is_cut_to_a_narrow_screen() {
    assert_eq!(drawn_rows(&editor(10, 3)), vec!["Kilo edito"]);
    assert_eq!(drawn_rows(&editor(28, 3)), vec!["Kilo editor -- version 0.0.1"]);
    assert_eq!(drawn_rows(&editor(29, 3)), vec!["Kilo editor -- version 0.0.1"]);
    assert_eq!(drawn_rows(&editor(30, 3)), vec!["~Kilo editor -- version 0.0.1"]);
    assert_eq!(drawn_rows(&editor(32, 3)), vec!["~ Kilo editor -- version 0.0.1"]);
    assert_eq!(drawn_rows(&editor(1, 5)), vec!["~", "K", "~"]);
}

#[test]
fn a_screen_without_text_lines_shows_only_the_bars() {
    let mut e = editor(20, 2);
    assert_eq!(drawn_rows(&e), Vec::<String>::new());
    assert_eq!(status_bar(&e), "[No Name] - 0 lines ");
    e.editor_set_status_message("hello", 0);
    assert_eq!(message_bar(&e, 1), "\x1b[Khello");
}

#[test]
fn a_screen_without_columns_shows_no_text() {
    let mut e = editor(0, 4);
    assert_eq!(drawn_rows(&e), vec!["", "~"]);
    e.editor_open("f", "abc");
    assert_eq!(drawn_rows(&e), vec!["", "~"]);
    assert_eq!(status_bar(&e), "");
    e.editor_set_status_message("hello", 0);
    assert_eq!(message_bar(&e, 1), "\x1b[K");
}

#[test]
fn no_welcome_banner_once_there_are_rows() {
    let mut e = editor(80, 26);
    e.editor_open("f", "");
    let lines = drawn_rows(&e);
    assert_eq!(lines[0], "");
    assert!(lines[1..].iter().all(|l| l == "~"));
    assert_eq!(lines.len(), 24);
}

#[test]
fn rows_are_drawn_in_their_rendered_form() {
    let mut e = editor(20, 5);
    e.editor_open("f", "ab\tcd\nsecond");
    assert_eq!(drawn_rows(&e), vec!["ab      cd", "second", "~"]);
}

#[test]
fn rows_are_cut_to_the_window() {
    let mut e = editor(5, 6);
    e.editor_open("f", "0123456789\nabc\n\nABCDEFGH\nlast");
    assert_eq!(drawn_rows(&e), vec!["01234", "abc", "", "ABCDE"]);
    e.column_offset = 3;
    assert_eq!(drawn_rows(&e), vec!["34567", "", "", "DEFGH"]);
    e.column_offset = 8;
    assert_eq!(drawn_rows(&e), vec!["89", "", "", ""]);
    e.column_offset = 10;
    assert_eq!(drawn_rows(&e), vec!["", "", "", ""]);
    e.column_offset = 0;
    e.row_offset = 3;
    assert_eq!(drawn_rows(&e), vec!["ABCDE", "last", "~", "~"]);
    e.row_offset = 5;
    assert_eq!(drawn_rows(&e), vec!["~", "~", "~", "~"]);
    e.row_offset = usize::MAX;
    assert_eq!(drawn_rows(&e), vec!["~", "~", "~", "~"]);
}

#[test]
fn status_bar_of_an_unnamed_empty_document() {
    let e = editor(80, 26);
    let bar = status_bar(&e);
    assert_eq!(bar, format!("[No Name] - 0 lines {}1/0", " ".repeat(57)));
    assert_eq!(bar.len(), 80);
}

#[test]
fn status_bar_shows_name_lines_position_and_changes() {
    let mut e = editor(40, 26);
    e.editor_open("notes.txt", "a\nb\nc");
    e.cursor_y = 1;
    assert_eq!(status_bar(&e), format!("notes.txt - 3 lines {}2/3", " ".repeat(17)));
    e.editor_process_keypress(Key::Byte(b'x'), 0);
    assert_eq!(status_bar(&e), format!("notes.txt - 3 lines (modified){}2/3", " ".repeat(7)));
    assert_eq!(status_bar(&e).len(), 40);
}

#[test]
fn status_bar_cuts_a_long_file_name() {
    let mut e = editor(60, 26);
    e.editor_open("a-very-long-file-name-indeed.txt", "x");
    assert_eq!(STATUS_NAME_WIDTH, 20);
    assert_eq!(status_bar(&e), format!("a-very-long-file-nam - 1 lines {}1/1", " ".repeat(26)));
}

#[test]
fn status_bar_on_narrow_screens() {
    let mut e = editor(10, 26);
    e.editor_open("f.txt", "ab\nc");
    assert_eq!(status_bar(&e), "f.txt - 2 ");
    assert!(e.set_dimensions(Some((16, 26))));
    assert_eq!(status_bar(&e), "f.txt - 2 lines ");
    assert!(e.set_dimensions(Some((17, 26))));
    assert_eq!(status_bar(&e), "f.txt - 2 lines  ");
    assert!(e.set_dimensions(Some((18, 26))));
    assert_eq!(status_bar(&e), "f.txt - 2 lines   ");
    assert!(e.set_dimensions(Some((19, 26))));
    assert_eq!(status_bar(&e), "f.txt - 2 lines 1/2");
    assert!(e.set_dimensions(Some((20, 26))));
    assert_eq!(status_bar(&e), "f.txt - 2 lines  1/2");
}

#[test]
fn message_bar_shows_a_fresh_message() {
    let mut e = editor(80, 26);
    assert_eq!(message_bar(&e, 0), "\x1b[K");
    e.editor_set_status_message("HELP: Ctrl-S = save | Ctrl-Q = quit", 1000);
    assert_eq!(message_bar(&e, 1000), "\x1b[KHELP: Ctrl-S = save | Ctrl-Q = quit");
    assert_eq!(message_bar(&e, 5999), "\x1b[KHELP: Ctrl-S = save | Ctrl-Q = quit");
    assert_eq!(message_bar(&e, 500), "\x1b[KHELP: Ctrl-S = save | Ctrl-Q = quit");
}

#[test]
fn message_bar_drops_the_message_after_five_seconds() {
    let mut e = editor(80, 26);
    e.editor_set_status_message("saved", 1000);
    assert_eq!(message_bar(&e, 6000), "\x1b[K");
    assert_eq!(message_bar(&e, u64::MAX), "\x1b[K");
    e.editor_set_status_message("late", u64::MAX);
    assert_eq!(message_bar(&e, u64::MAX), "\x1b[Klate");
}

#[test]
fn message_bar_cuts_the_message_to_the_screen() {
    let mut e = editor(10, 26);
    e.editor_set_status_message("HELP: Ctrl-S = save", 0);
    assert_eq!(message_bar(&e, 1), "\x1b[KHELP: Ctrl");
}

#[test]
fn refresh_builds_the_whole_frame() {
    let mut e = editor(10, 4);
    e.editor_open("f.txt", "ab\nc");
    let frame = e.editor_refresh_screen(0);
    assert_eq!(
        frame,
        "\x1b[?25l\x1b[Hab\x1b[K\r\nc\x1b[K\r\n\x1b[7mf.txt - 2 \x1b[m\r\n\x1b[K\x1b[1;1H\x1b[?25h"
    );
}

#[test]
fn refresh_places_the_cursor_by_display_column() {
    let mut e = editor(20, 5);
    e.editor_open("f", "x\n\tab");
    e.editor_set_status_message("hi", 100);
    e.cursor_y = 1;
    e.cursor_x = 2;
    let frame = e.editor_refresh_screen(200);
    assert_eq!(e.render_cursor_x, 9);
    assert_eq!(
        frame,
        "\x1b[?25l\x1b[Hx\x1b[K\r\n        ab\x1b[K\r\n~\x1b[K\r\n\x1b[7mf - 2 lines      2/2\x1b[m\r\n\x1b[Khi\x1b[2;10H\x1b[?25h"
    );
}

#[test]
fn refresh_scrolls_before_it_draws() {
    let mut e = editor(4, 4);
    e.editor_open("f", "0123456789\nb\nc\nd");
    e.cursor_y = 3;
    let _ = e.editor_refresh_screen(0);
    assert_eq!((e.row_offset, e.column_offset), (2, 0));
    e.cursor_y = 0;
    e.cursor_x = 9;
    let frame = e.editor_refresh_screen(0);
    assert_eq!((e.row_offset, e.column_offset), (0, 6));
    assert_eq!(
        frame,
        "\x1b[?25l\x1b[H6789\x1b[K\r\n\x1b[K\r\n\x1b[7mf - \x1b[m\r\n\x1b[K\x1b[1;4H\x1b[?25h"
    );
}

#[test]
fn refresh_of_an_empty_editor() {
    let mut e = editor(30, 5);
    let frame = e.editor_refresh_screen(0);
    assert_eq!(
        frame,
        "\x1b[?25l\x1b[H~\x1b[K\r\n~Kilo editor -- version 0.0.1\x1b[K\r\n~\x1b[K\r\n\x1b[7m[No Name] - 0 lines        1/0\x1b[m\r\n\x1b[K\x1b[1;1H\x1b[?25h"
    );
}

//! The editor as a mathematical value, and what each command makes of it.
//!
//! Every operation of the editor is stated here as a function from one such
//! value to the next. The executable editor is proved to follow them.
//!
//! The editor has no clock of its own. Where time matters the caller hands
//! in the time of the call, in milliseconds on a clock of its choice that
//! does not run backwards.

use vstd::prelude::*;
use termios::Termios;
use crate::document::{join_lines, lemma_load_join, load_lines, survives_storage};
use crate::keys::{
    Key, BACKSPACE_KEY, CARRIAGE_RETURN_KEY, CTRL_H, CTRL_L, CTRL_Q, CTRL_S, ESCAPE_KEY,
};
use crate::row::{spec_delete_char, spec_insert_char, spec_render_x, spec_split};
use crate::text::{spec_count, spec_decimal};

verus! {

/// The number of screen lines that the status bar and the message bar take.
pub const KILO_MESSAGE_BAR_HEIGHT: usize = 2;

/// How often a quit must be confirmed while there are unsaved changes.
pub const KILO_QUIT_TIMES: usize = 3;

/// How long a status message stays on screen, in milliseconds.
pub const MESSAGE_LIFETIME_MS: u64 = 5000;

/// What the caller is to do after a key was handled.
#[derive(Clone, Copy, Debug, PartialEq, Eq, Structural)]
pub enum Action {
    /// Go on with the next key.
    Continue,
    /// Write the document to its file and report how that went.
    Save,
    /// Restore the terminal and end the session.
    Quit,
}

/// How an attempt to write the document to its file ended.
#[derive(Debug)]
pub enum SaveOutcome {
    /// The whole document was written.
    Written,
    /// The file could not be opened or created; the reason is given.
    OpenFailed(String),
    /// The file was opened but writing failed; the reason is given.
    WriteFailed(String),
}

/// The state of an editor session.
pub struct EditorView {
    /// The cursor's offset in its row, in characters.
    pub cursor_x: nat,
    /// The cursor's row. The number of rows stands for the place after the last row.
    pub cursor_y: nat,
    /// The column at which the cursor is displayed, as of the last scroll.
    pub render_cursor_x: nat,
    /// The first row on screen.
    pub row_offset: nat,
    /// The first display column on screen.
    pub column_offset: nat,
    /// The number of screen lines for text.
    pub screen_num_rows: nat,
    /// The number of screen columns.
    pub screen_num_columns: nat,
    /// The text of each row.
    pub rows: Seq<Seq<char>>,
    /// The number of changes since the document was loaded or saved.
    pub dirty: nat,
    /// The number of confirmations still asked for before a quit discards changes.
    pub quit_times: nat,
    /// The name of the file, if the document has one.
    pub filename: Option<Seq<char>>,
    /// The status message, if one was set.
    pub status_message: Option<Seq<char>>,
    /// When the status message was set, in milliseconds.
    pub status_message_time: nat,
    /// The terminal attributes to restore at exit, once they were recorded.
    pub original_terminal: Option<Termios>,
}

/// The warning shown when a quit would discard changes; `remaining` is the
/// number of further confirmations asked for.
pub open spec fn quit_warning(remaining: nat) -> Seq<char> {
    "WARNING!!! File has unsaved changes. Press Ctrl-Q "@ + spec_decimal(remaining)
        + " more times to quit."@
}

/// The message shown after `text` was written to the file: the number of
/// bytes that `text` takes in UTF-8, and the number of newlines in it.
pub open spec fn saved_message(text: Seq<char>) -> Seq<char> {
    spec_decimal(vstd::utf8::encode_utf8(text).len()) + " bytes written to disk "@ + spec_decimal(
        spec_count(text, '\n'),
    )
}

impl EditorView {
    /// The state of a session that has just started on a screen with
    /// `columns` columns and `rows` lines for text.
    pub open spec fn initial(columns: nat, rows: nat) -> EditorView {
        EditorView {
            cursor_x: 0,
            cursor_y: 0,
            render_cursor_x: 0,
            row_offset: 0,
            column_offset: 0,
            screen_num_rows: rows,
            screen_num_columns: columns,
            rows: Seq::empty(),
            dirty: 0,
            quit_times: KILO_QUIT_TIMES as nat,
            filename: None,
            status_message: None,
            status_message_time: 0,
            original_terminal: None,
        }
    }

    /// The length of row `y`; zero where there is no such row.
    pub open spec fn row_len(self, y: int) -> nat {
        if 0 <= y < self.rows.len() {
            self.rows[y].len()
        } else {
            0
        }
    }

    /// The cursor stands in the text: on a row and within it or at its end,
    /// or at the start of the place after the last row.
    pub open spec fn cursor_in_text(self) -> bool {
        &&& self.cursor_y <= self.rows.len()
        &&& self.cursor_x <= self.row_len(self.cursor_y as int)
    }

    /// The session is in order: the cursor stands in the text.
    pub open spec fn wf(self) -> bool {
        self.cursor_in_text()
    }

    /// The cursor is on screen: its row and its display column lie within
    /// the window that the offsets and the screen size describe.
    pub open spec fn cursor_on_screen(self) -> bool {
        &&& self.row_offset <= self.cursor_y < self.row_offset + self.screen_num_rows
        &&& self.column_offset <= self.render_cursor_x < self.column_offset
            + self.screen_num_columns
    }

    /// The same session on a terminal of `columns` by `lines` cells, of which
    /// the two bars take their lines.
    pub open spec fn with_dimensions(self, columns: nat, lines: nat) -> EditorView {
        EditorView {
            screen_num_rows: (lines - KILO_MESSAGE_BAR_HEIGHT) as nat,
            screen_num_columns: columns,
            ..self
        }
    }

    /// A new row with `text` at position `at`. A position past the place
    /// after the last row changes nothing.
    pub open spec fn insert_row(self, at: int, text: Seq<char>) -> EditorView {
        if 0 <= at <= self.rows.len() {
            EditorView { rows: self.rows.insert(at, text), dirty: self.dirty + 1, ..self }
        } else {
            self
        }
    }

    /// Without the row at position `at`. Where there is none, nothing changes.
    pub open spec fn delete_row(self, at: int) -> EditorView {
        if 0 <= at < self.rows.len() {
            EditorView { rows: self.rows.remove(at), dirty: self.dirty + 1, ..self }
        } else {
            self
        }
    }

    /// `c` typed at the cursor: it is inserted there and the cursor moves
    /// past it. At the place after the last row an empty row is added first.
    pub open spec fn insert_char(self, c: char) -> EditorView {
        let v = if self.cursor_y == self.rows.len() {
            self.insert_row(self.rows.len() as int, Seq::empty())
        } else {
            self
        };
        if v.cursor_y < v.rows.len() {
            EditorView {
                rows: v.rows.update(
                    v.cursor_y as int,
                    spec_insert_char(v.rows[v.cursor_y as int], v.cursor_x as int, c),
                ),
                cursor_x: v.cursor_x + 1,
                dirty: v.dirty + 1,
                ..v
            }
        } else {
            v
        }
    }

    /// A line break typed at the cursor. At the start of a row an empty row
    /// is put before it; elsewhere the row is cut at the cursor and what
    /// follows becomes the next row. The cursor moves to the start of the
    /// next row.
    pub open spec fn insert_newline(self) -> EditorView {
        let y = self.cursor_y as int;
        if self.cursor_x == 0 {
            EditorView { cursor_x: 0, cursor_y: self.cursor_y + 1, ..self.insert_row(y, Seq::empty()) }
        } else if y < self.rows.len() {
            let parts = spec_split(self.rows[y], self.cursor_x as int);
            EditorView {
                rows: self.rows.update(y, parts.0).insert(y + 1, parts.1),
                dirty: self.dirty + 2,
                cursor_x: 0,
                cursor_y: self.cursor_y + 1,
                ..self
            }
        } else {
            self
        }
    }

    /// The character before the cursor deleted. At the start of a row the
    /// row is joined to the end of the one before it, and the cursor moves to
    /// where the two meet. At the start of the document nothing changes.
    pub open spec fn delete_char(self) -> EditorView {
        let y = self.cursor_y as int;
        if self.cursor_x == 0 && self.cursor_y == 0 {
            self
        } else if self.cursor_x > 0 {
            if y < self.rows.len() {
                EditorView {
                    rows: self.rows.update(y, spec_delete_char(self.rows[y], self.cursor_x - 1)),
                    cursor_x: (self.cursor_x - 1) as nat,
                    dirty: self.dirty + 1,
                    ..self
                }
            } else {
                self
            }
        } else if y < self.rows.len() {
            EditorView {
                rows: self.rows.update(y - 1, self.rows[y - 1] + self.rows[y]).remove(y),
                cursor_x: self.rows[y - 1].len(),
                cursor_y: (y - 1) as nat,
                dirty: self.dirty + 1,
                ..self
            }
        } else {
            EditorView { cursor_x: self.row_len(y - 1), cursor_y: (y - 1) as nat, ..self }
        }
    }

    /// The cursor moved one step by an arrow key, then pulled back to the end
    /// of its row if it stands past it. Left at the start of a row goes to
    /// the end of the row before; Right at the end of a row goes to the start
    /// of the next. Any other key moves nothing.
    pub open spec fn move_cursor(self, key: Key) -> EditorView {
        let on_row = self.cursor_y < self.rows.len();
        let moved = match key {
            Key::ArrowLeft => if self.cursor_x != 0 {
                EditorView { cursor_x: (self.cursor_x - 1) as nat, ..self }
            } else if self.cursor_y > 0 {
                EditorView {
                    cursor_y: (self.cursor_y - 1) as nat,
                    cursor_x: self.row_len(self.cursor_y - 1),
                    ..self
                }
            } else {
                self
            },
            Key::ArrowRight => if on_row && self.cursor_x < self.row_len(self.cursor_y as int) {
                EditorView { cursor_x: self.cursor_x + 1, ..self }
            } else if on_row && self.cursor_x == self.row_len(self.cursor_y as int) {
                EditorView { cursor_y: self.cursor_y + 1, cursor_x: 0, ..self }
            } else {
                self
            },
            Key::ArrowUp => if self.cursor_y > 0 {
                EditorView { cursor_y: (self.cursor_y - 1) as nat, ..self }
            } else {
                self
            },
            Key::ArrowDown => if on_row {
                EditorView { cursor_y: self.cursor_y + 1, ..self }
            } else {
                self
            },
            _ => self,
        };
        let limit = moved.row_len(moved.cursor_y as int);
        if moved.cursor_x > limit {
            EditorView { cursor_x: limit, ..moved }
        } else {
            moved
        }
    }

    /// The cursor moved `times` steps by the arrow key `key`.
    pub open spec fn move_cursor_times(self, key: Key, times: nat) -> EditorView
        decreases times,
    {
        if times == 0 {
            self
        } else {
            self.move_cursor_times(key, (times - 1) as nat).move_cursor(key)
        }
    }

    /// A page up: the cursor jumps to the top of the window, or to the place
    /// after the last row if the window starts beyond it, and then moves up
    /// by as many steps as the screen has lines.
    pub open spec fn page_up(self) -> EditorView {
        let top = if self.row_offset <= self.rows.len() {
            self.row_offset
        } else {
            self.rows.len()
        };
        let jumped = EditorView { cursor_y: top, ..self };
        jumped.move_cursor_times(Key::ArrowUp, self.screen_num_rows)
    }

    /// A page down: the cursor jumps to the bottom of the window, or to the
    /// place after the last row if the window reaches beyond it, and then
    /// moves down by as many steps as the screen has lines.
    pub open spec fn page_down(self) -> EditorView {
        let bottom = self.row_offset + self.screen_num_rows - 1;
        let target = if 0 <= bottom <= self.rows.len() {
            bottom as nat
        } else {
            self.rows.len()
        };
        let jumped = EditorView { cursor_y: target, ..self };
        jumped.move_cursor_times(Key::ArrowDown, self.screen_num_rows)
    }

    /// The cursor at the end of its row; unmoved at the place after the last row.
    pub open spec fn end_of_row(self) -> EditorView {
        if self.cursor_y < self.rows.len() {
            EditorView { cursor_x: self.row_len(self.cursor_y as int), ..self }
        } else {
            self
        }
    }

    /// The display column of the cursor: zero at the place after the last row.
    pub open spec fn cursor_column(self) -> nat {
        if self.cursor_y < self.rows.len() {
            spec_render_x(self.rows[self.cursor_y as int], self.cursor_x as int)
        } else {
            0
        }
    }

    /// The window moved by the least amount that brings the cursor on
    /// screen, in each direction; the display column of the cursor is
    /// computed anew.
    pub open spec fn scroll(self) -> EditorView {
        let column = self.cursor_column();
        let top = if self.cursor_y < self.row_offset {
            self.cursor_y
        } else {
            self.row_offset
        };
        let row_offset = if self.cursor_y >= top + self.screen_num_rows {
            (self.cursor_y - self.screen_num_rows + 1) as nat
        } else {
            top
        };
        let left = if column < self.column_offset {
            column
        } else {
            self.column_offset
        };
        let column_offset = if column >= left + self.screen_num_columns {
            (column - self.screen_num_columns + 1) as nat
        } else {
            left
        };
        EditorView { render_cursor_x: column, row_offset, column_offset, ..self }
    }

    /// With `message` as the status message, set at time `now`.
    pub open spec fn set_status_message(self, message: Seq<char>, now: nat) -> EditorView {
        EditorView { status_message: Some(message), status_message_time: now, ..self }
    }

    /// The rows of `text` added after the rows that are there, the file
    /// named `filename`, and nothing left to save.
    pub open spec fn open_file(self, filename: Seq<char>, text: Seq<char>) -> EditorView {
        EditorView {
            rows: self.rows + load_lines(text),
            filename: Some(filename),
            dirty: 0,
            ..self
        }
    }

    /// A file named `filename` that does not exist yet: the name is
    /// recorded, nothing is left to save, and the document stays as it is.
    pub open spec fn open_missing(self, filename: Seq<char>) -> EditorView {
        EditorView { filename: Some(filename), dirty: 0, ..self }
    }

    /// After an attempt to save ended in `outcome` at time `now`: the status
    /// message says how it went, and after a success nothing is left to save.
    /// A document without a file name cannot have been saved: the message
    /// says so and nothing else changes, whatever the outcome is said to be.
    pub open spec fn save_finished(self, outcome: SaveOutcome, now: nat) -> EditorView {
        if self.filename is None {
            self.set_status_message("No file open to save"@, now)
        } else {
            match outcome {
                SaveOutcome::Written => EditorView {
                    dirty: 0,
                    ..self.set_status_message(saved_message(join_lines(self.rows)), now)
                },
                SaveOutcome::OpenFailed(reason) => self.set_status_message(
                    "Error opening file: "@ + reason@,
                    now,
                ),
                SaveOutcome::WriteFailed(reason) => self.set_status_message(
                    "Error saving file: "@ + reason@,
                    now,
                ),
            }
        }
    }

    /// With the quit counter back at its start.
    pub open spec fn rearmed(self) -> EditorView {
        EditorView { quit_times: KILO_QUIT_TIMES as nat, ..self }
    }

    /// What a key makes of the session at time `now`, and what the caller is
    /// to do next.
    pub open spec fn process_key(self, key: Key, now: nat) -> (EditorView, Action) {
        match key {
            Key::Byte(b) => if b == CTRL_Q {
                if self.dirty != 0 && self.quit_times > 0 {
                    (
                        EditorView {
                            quit_times: (self.quit_times - 1) as nat,
                            ..self.set_status_message(quit_warning(self.quit_times), now)
                        },
                        Action::Continue,
                    )
                } else {
                    (self, Action::Quit)
                }
            } else if b == CTRL_S {
                if self.filename is Some {
                    (self.rearmed(), Action::Save)
                } else {
                    (
                        self.set_status_message("No file open to save"@, now).rearmed(),
                        Action::Continue,
                    )
                }
            } else if b == CARRIAGE_RETURN_KEY {
                (self.insert_newline().rearmed(), Action::Continue)
            } else if b == BACKSPACE_KEY || b == CTRL_H {
                (self.delete_char().rearmed(), Action::Continue)
            } else if b == ESCAPE_KEY || b == CTRL_L {
                (self.rearmed(), Action::Continue)
            } else if b < 128 {
                (self.insert_char(b as char).rearmed(), Action::Continue)
            } else {
                (self.rearmed(), Action::Continue)
            },
            Key::ArrowLeft | Key::ArrowRight | Key::ArrowUp | Key::ArrowDown => (
                self.move_cursor(key).rearmed(),
                Action::Continue,
            ),
            Key::PageUp => (self.page_up().rearmed(), Action::Continue),
            Key::PageDown => (self.page_down().rearmed(), Action::Continue),
            Key::Home => (EditorView { cursor_x: 0, ..self }.rearmed(), Action::Continue),
            Key::End => (self.end_of_row().rearmed(), Action::Continue),
            Key::Delete => (
                self.move_cursor(Key::ArrowRight).delete_char().rearmed(),
                Action::Continue,
            ),
        }
    }
}

/// After a scroll the cursor is on screen, whatever the offsets were before,
/// on any screen with room for text.
pub proof fn lemma_scroll_shows_cursor(v: EditorView)
    requires
        v.screen_num_rows >= 1,
        v.screen_num_columns >= 1,
    ensures
        v.scroll().cursor_on_screen(),
        v.scroll() == (EditorView {
            render_cursor_x: v.cursor_column(),
            row_offset: v.scroll().row_offset,
            column_offset: v.scroll().column_offset,
            ..v
        }),
{
}

/// A scroll moves nothing when the cursor is on screen already: a second
/// scroll after the first changes nothing.
pub proof fn lemma_scroll_is_minimal(v: EditorView)
    requires
        v.screen_num_rows >= 1,
        v.screen_num_columns >= 1,
    ensures
        v.cursor_on_screen() && v.render_cursor_x == v.cursor_column() ==> v.scroll() == v,
        v.scroll().scroll() == v.scroll(),
{
}

/// How far two offsets lie apart.
pub open spec fn distance(a: nat, b: nat) -> nat {
    if a >= b {
        (a - b) as nat
    } else {
        (b - a) as nat
    }
}

/// A scroll jumps no further than it must: no window that shows the cursor
/// lies nearer to the window before the scroll, in rows or in columns, than
/// the window after it.
pub proof fn lemma_scroll_jumps_least(v: EditorView, row_offset: nat, column_offset: nat)
    requires
        row_offset <= v.cursor_y < row_offset + v.screen_num_rows,
        column_offset <= v.cursor_column() < column_offset + v.screen_num_columns,
    ensures
        distance(v.scroll().row_offset, v.row_offset) <= distance(row_offset, v.row_offset),
        distance(v.scroll().column_offset, v.column_offset) <= distance(
            column_offset,
            v.column_offset,
        ),
{
}

/// Typing a character on a row and deleting backwards gives back the text
/// and the cursor.
pub proof fn lemma_type_then_backspace(v: EditorView, c: char)
    requires
        v.cursor_in_text(),
        v.cursor_y < v.rows.len(),
    ensures
        v.insert_char(c).delete_char().rows == v.rows,
        v.insert_char(c).delete_char().cursor_x == v.cursor_x,
        v.insert_char(c).delete_char().cursor_y == v.cursor_y,
{
    let y = v.cursor_y as int;
    let x = v.cursor_x as int;
    assert(v.rows[y].insert(x, c).remove(x) =~= v.rows[y]);
    assert(v.insert_char(c).delete_char().rows =~= v.rows);
}

/// Breaking a row at the cursor and deleting backwards gives back the text
/// and the cursor: the two halves of the row are joined again.
pub proof fn lemma_newline_then_backspace(v: EditorView)
    requires
        v.cursor_in_text(),
        v.cursor_y < v.rows.len(),
    ensures
        v.insert_newline().delete_char().rows == v.rows,
        v.insert_newline().delete_char().cursor_x == v.cursor_x,
        v.insert_newline().delete_char().cursor_y == v.cursor_y,
        v.insert_newline().delete_char().dirty > v.dirty,
{
    let y = v.cursor_y as int;
    let x = v.cursor_x as int;
    let broken = v.insert_newline();
    if x == 0 {
        assert(broken.rows[y] + broken.rows[y + 1] =~= v.rows[y]);
    } else {
        assert(v.rows[y].take(x) + v.rows[y].skip(x) =~= v.rows[y]);
        assert(broken.rows[y] + broken.rows[y + 1] =~= v.rows[y]);
    }
    assert(broken.delete_char().rows =~= v.rows);
}

/// Steps by an arrow key change nothing but the cursor and keep it within
/// the rows; after at least one step it stands in the text.
pub proof fn lemma_move_cursor_times(v: EditorView, key: Key, times: nat)
    requires
        v.cursor_y <= v.rows.len(),
    ensures
        v.move_cursor_times(key, times) == (EditorView {
            cursor_x: v.move_cursor_times(key, times).cursor_x,
            cursor_y: v.move_cursor_times(key, times).cursor_y,
            ..v
        }),
        v.move_cursor_times(key, times).cursor_y <= v.rows.len(),
        times > 0 || v.cursor_in_text() ==> v.move_cursor_times(key, times).cursor_in_text(),
    decreases times,
{
    if times > 0 {
        lemma_move_cursor_times(v, key, (times - 1) as nat);
    }
}

/// Whatever key is pressed, the session stays in order: the cursor stays in
/// the text and the screen keeps its size. The count of unsaved changes
/// does not go down, and every key but the quit chord sets the quit counter
/// back to its start. (The paging keys move by the height of the window;
/// on a screen without a text line they make no step, and the cursor is
/// not pulled back into its row.)
pub proof fn lemma_process_key_keeps_order(v: EditorView, key: Key, now: nat)
    requires
        v.wf(),
        key == Key::PageUp || key == Key::PageDown ==> v.screen_num_rows >= 1,
    ensures
        v.process_key(key, now).0.wf(),
        v.process_key(key, now).0.screen_num_rows == v.screen_num_rows,
        v.process_key(key, now).0.screen_num_columns == v.screen_num_columns,
        v.process_key(key, now).0.dirty >= v.dirty,
        key != Key::Byte(CTRL_Q) ==> v.process_key(key, now).0.quit_times == KILO_QUIT_TIMES,
{
    let top = if v.row_offset <= v.rows.len() {
        v.row_offset
    } else {
        v.rows.len()
    };
    lemma_move_cursor_times(EditorView { cursor_y: top, ..v }, Key::ArrowUp, v.screen_num_rows);
    let bottom = v.row_offset + v.screen_num_rows - 1;
    let target = if 0 <= bottom <= v.rows.len() {
        bottom as nat
    } else {
        v.rows.len()
    };
    lemma_move_cursor_times(EditorView { cursor_y: target, ..v }, Key::ArrowDown, v.screen_num_rows);
}

/// Opening what was saved gives back the document: an editor without rows
/// that loads the stored form of `rows` holds exactly `rows`, where there is
/// at least one row and every row survives storage.
pub proof fn lemma_open_after_save(v: EditorView, filename: Seq<char>, rows: Seq<Seq<char>>)
    requires
        v.rows.len() == 0,
        rows.len() >= 1,
        forall|i: int| 0 <= i < rows.len() ==> survives_storage(#[trigger] rows[i]),
    ensures
        v.open_file(filename, join_lines(rows)).rows == rows,
        v.open_file(filename, join_lines(rows)).dirty == 0,
{
    lemma_load_join(rows);
    assert(v.rows + rows =~= rows);
}

/// Deleting backwards at the start of the document changes nothing, and
/// the Backspace key there changes nothing either, but that it sets the
/// quit counter back to its start.
pub proof fn lemma_backspace_at_start(v: EditorView, now: nat)
    requires
        v.cursor_x == 0,
        v.cursor_y == 0,
    ensures
        v.delete_char() == v,
        v.process_key(Key::Byte(BACKSPACE_KEY), now) == (v.rearmed(), Action::Continue),
        v.process_key(Key::Byte(CTRL_H), now) == (v.rearmed(), Action::Continue),
{
}

/// A quit asked for while there are unsaved changes is answered by a
/// warning as long as the quit counter is above zero: each press lowers the
/// counter by one, sets the warning with the count before the press, and
/// changes nothing else. With the counter at zero the press quits. So from
/// the counter's start at three, three presses go on and the fourth quits.
pub proof fn lemma_quit_is_confirmed(v: EditorView, now: nat)
    requires
        v.dirty != 0,
    ensures
        v.quit_times > 0 ==> v.process_key(Key::Byte(CTRL_Q), now) == (
            EditorView {
                quit_times: (v.quit_times - 1) as nat,
                status_message: Some(quit_warning(v.quit_times)),
                status_message_time: now,
                ..v
            },
            Action::Continue,
        ),
        v.quit_times == 0 ==> v.process_key(Key::Byte(CTRL_Q), now) == (v, Action::Quit),
{
}

/// Two quits in a row on a session with unsaved changes and a fresh quit
/// counter: neither ends the session, the counter stands at one, the
/// warning is shown, and the document, the cursor and the count of changes
/// are as before.
pub proof fn lemma_two_quits_go_on(v: EditorView, first: nat, second: nat)
    requires
        v.dirty != 0,
        v.quit_times == KILO_QUIT_TIMES,
    ensures
        v.process_key(Key::Byte(CTRL_Q), first).1 == Action::Continue,
        v.process_key(Key::Byte(CTRL_Q), first).0.process_key(Key::Byte(CTRL_Q), second) == (
            EditorView {
                quit_times: 1,
                status_message: Some(quit_warning(2)),
                status_message_time: second,
                ..v
            },
            Action::Continue,
        ),
{
    lemma_quit_is_confirmed(v, first);
    lemma_quit_is_confirmed(v.process_key(Key::Byte(CTRL_Q), first).0, second);
}

} // verus!

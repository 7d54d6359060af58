//! The editor session: the document, the cursor, the window on the
//! document, and the commands that change them.

use vstd::prelude::*;
use vstd::string::*;
use termios::Termios;
use crate::document::{join_lines, load_lines, split_lines, strip_line, strip_line_end};
use crate::keys::{
    Key, BACKSPACE_KEY, CARRIAGE_RETURN_KEY, CTRL_H, CTRL_L, CTRL_Q, CTRL_S, ESCAPE_KEY,
};
use crate::model::{
    quit_warning, saved_message, Action, EditorView, SaveOutcome, KILO_MESSAGE_BAR_HEIGHT,
    KILO_QUIT_TIMES,
};
use crate::row::EditorRow;
use crate::terminal::terminal_dimensions;
use crate::text::{
    chars_to_string, count_char, push_all, push_decimal, push_str, string_to_chars,
};

verus! {

/// An editor session.
#[derive(Debug)]
pub struct Editor {
    /// The cursor's offset in its row, in characters.
    pub cursor_x: usize,
    /// The cursor's row; the number of rows stands for the place after the last row.
    pub cursor_y: usize,
    /// The column at which the cursor is displayed, as of the last scroll.
    pub render_cursor_x: usize,
    /// The first row on screen.
    pub row_offset: usize,
    /// The first display column on screen.
    pub column_offset: usize,
    /// The number of screen lines for text.
    pub screen_num_rows: usize,
    /// The number of screen columns.
    pub screen_num_columns: usize,
    /// The rows of the document.
    pub rows: Vec<EditorRow>,
    /// The number of changes since the document was loaded or saved.
    pub dirty: usize,
    /// The number of confirmations still asked for before a quit discards changes.
    pub quit_times: usize,
    /// The name of the file, if the document has one.
    pub filename: Option<String>,
    /// The status message, if one was set.
    pub status_message: Option<String>,
    /// When the status message was set, in milliseconds.
    pub status_message_time: u64,
    /// The terminal attributes to restore at exit, once they were recorded.
    pub original_terminal: Option<Termios>,
}

/// The texts of `rows`.
pub open spec fn rows_view(rows: Seq<EditorRow>) -> Seq<Seq<char>> {
    rows.map_values(|row: EditorRow| row@)
}

/// The characters of `text`, if there is one.
pub open spec fn text_view(text: Option<String>) -> Option<Seq<char>> {
    match text {
        Some(s) => Some(s@),
        None => None,
    }
}

/// Whether a terminal of these dimensions, given as columns and lines, can
/// hold the editor: it has lines for the two bars. What is left above the
/// bars is for text, and may be nothing.
pub open spec fn usable_dimensions(dimensions: Option<(usize, usize)>) -> bool {
    match dimensions {
        Some((columns, lines)) => lines >= KILO_MESSAGE_BAR_HEIGHT,
        None => false,
    }
}

/// The number of columns in `dimensions`; zero where there are none.
pub open spec fn columns_of(dimensions: Option<(usize, usize)>) -> nat {
    match dimensions {
        Some((columns, lines)) => columns as nat,
        None => 0,
    }
}

/// The number of lines in `dimensions`; zero where there are none.
pub open spec fn lines_of(dimensions: Option<(usize, usize)>) -> nat {
    match dimensions {
        Some((columns, lines)) => lines as nat,
        None => 0,
    }
}

impl View for Editor {
    type V = EditorView;

    open spec fn view(&self) -> EditorView {
        EditorView {
            cursor_x: self.cursor_x as nat,
            cursor_y: self.cursor_y as nat,
            render_cursor_x: self.render_cursor_x as nat,
            row_offset: self.row_offset as nat,
            column_offset: self.column_offset as nat,
            screen_num_rows: self.screen_num_rows as nat,
            screen_num_columns: self.screen_num_columns as nat,
            rows: rows_view(self.rows@),
            dirty: self.dirty as nat,
            quit_times: self.quit_times as nat,
            filename: text_view(self.filename),
            status_message: text_view(self.status_message),
            status_message_time: self.status_message_time as nat,
            original_terminal: self.original_terminal,
        }
    }
}

impl Editor {
    /// The session is in order: the cursor stands in the text.
    pub open spec fn wf(&self) -> bool {
        self@.wf()
    }

    /// A session on a terminal of the given dimensions, columns first, with
    /// an empty document; `None` where the terminal has no dimensions or is
    /// too small for the two bars.
    pub fn from_dimensions(dimensions: Option<(usize, usize)>) -> (editor: Option<Editor>)
        ensures
            editor is Some <==> usable_dimensions(dimensions),
            editor matches Some(e) ==> e.wf() && e@ == EditorView::initial(
                columns_of(dimensions),
                (lines_of(dimensions) - KILO_MESSAGE_BAR_HEIGHT) as nat,
            ),
    {
        match dimensions {
            Some((columns, lines)) => {
                if lines >= KILO_MESSAGE_BAR_HEIGHT {
                    let editor = Editor {
                        cursor_x: 0,
                        cursor_y: 0,
                        render_cursor_x: 0,
                        row_offset: 0,
                        column_offset: 0,
                        screen_num_rows: lines - KILO_MESSAGE_BAR_HEIGHT,
                        screen_num_columns: columns,
                        rows: Vec::new(),
                        dirty: 0,
                        quit_times: KILO_QUIT_TIMES,
                        filename: None,
                        status_message: None,
                        status_message_time: 0,
                        original_terminal: None,
                    };
                    assert(editor@.rows =~= Seq::<Seq<char>>::empty());
                    Some(editor)
                } else {
                    None
                }
            },
            None => None,
        }
    }

    /// A session on the terminal of this process, with an empty document;
    /// `None` where the terminal does not tell its size or is too small for
    /// the two bars.
    pub fn new() -> (editor: Option<Editor>)
        ensures
            editor matches Some(e) ==> e.wf() && e@ == EditorView::initial(
                e@.screen_num_columns,
                e@.screen_num_rows,
            ),
    {
        Editor::from_dimensions(terminal_dimensions())
    }

    /// Takes over the dimensions of a terminal, columns first. Dimensions
    /// that are missing or too small are refused and change nothing.
    pub fn set_dimensions(&mut self, dimensions: Option<(usize, usize)>) -> (accepted: bool)
        ensures
            accepted == usable_dimensions(dimensions),
            accepted ==> final(self)@ == old(self)@.with_dimensions(
                columns_of(dimensions),
                lines_of(dimensions),
            ),
            !accepted ==> final(self)@ == old(self)@,
            old(self).wf() ==> final(self).wf(),
    {
        match dimensions {
            Some((columns, lines)) => {
                if lines >= KILO_MESSAGE_BAR_HEIGHT {
                    self.screen_num_rows = lines - KILO_MESSAGE_BAR_HEIGHT;
                    self.screen_num_columns = columns;
                    true
                } else {
                    false
                }
            },
            None => false,
        }
    }

    /// Asks the terminal of this process for its size and takes it over.
    /// Returns whether the terminal gave a size that can be used; if not,
    /// nothing changes.
    pub fn get_dimensions(&mut self) -> (accepted: bool)
        ensures
            final(self)@ == (EditorView {
                screen_num_rows: final(self)@.screen_num_rows,
                screen_num_columns: final(self)@.screen_num_columns,
                ..old(self)@
            }),
            !accepted ==> final(self)@ == old(self)@,
            old(self).wf() ==> final(self).wf(),
    {
        let dimensions = terminal_dimensions();
        self.set_dimensions(dimensions)
    }

    /// The number of rows in the document.
    pub fn get_num_rows(&self) -> (count: usize)
        ensures
            count == self@.rows.len(),
    {
        self.rows.len()
    }

    /// Records the terminal attributes that are to be restored at exit.
    pub fn set_original_terminal(&mut self, original_terminal: Termios)
        ensures
            final(self)@ == (EditorView {
                original_terminal: Some(original_terminal),
                ..old(self)@
            }),
    {
        self.original_terminal = Some(original_terminal);
    }

    /// Puts a new row with the text `row` at position `at`. A position past
    /// the place after the last row is refused without notice.
    pub fn editor_insert_row(&mut self, at: usize, row: String)
        requires
            old(self)@.insert_row(at as int, row@).dirty <= usize::MAX,
        ensures
            final(self)@ == old(self)@.insert_row(at as int, row@),
    {
        if at > self.get_num_rows() {
            return ;
        }
        let editor_row = EditorRow::new(row);
        self.rows.insert(at, editor_row);
        self.dirty += 1;
        assert(self@.rows =~= old(self)@.rows.insert(at as int, row@));
    }

    /// Takes the row at position `at` out of the document and returns it;
    /// `None`, and no change, where there is no such row.
    pub fn editor_delete_row(&mut self, at: usize) -> (removed: Option<EditorRow>)
        requires
            old(self)@.delete_row(at as int).dirty <= usize::MAX,
        ensures
            final(self)@ == old(self)@.delete_row(at as int),
            removed is Some <==> at < old(self)@.rows.len(),
            removed matches Some(row) ==> row@ == old(self)@.rows[at as int],
    {
        if at >= self.get_num_rows() {
            return None;
        }
        self.dirty += 1;
        let row = self.rows.remove(at);
        assert(self@.rows =~= old(self)@.rows.remove(at as int));
        Some(row)
    }

    /// Types `c` at the cursor.
    pub fn editor_insert_char(&mut self, c: char)
        requires
            old(self).wf(),
            old(self)@.insert_char(c).dirty <= usize::MAX,
        ensures
            final(self).wf(),
            final(self)@ == old(self)@.insert_char(c),
    {
        if self.cursor_y == self.get_num_rows() {
            self.editor_insert_row(self.get_num_rows(), String::new());
        }
        let x = self.cursor_x;
        let y = self.cursor_y;
        let ghost before = self.rows@;
        self.rows[y].insert_char(x, c);
        proof {
            self.rows[y as int].lemma_len_fits();
            assert(self@.rows =~= rows_view(before).update(y as int, self.rows[y as int]@));
        }
        self.cursor_x += 1;
        self.dirty += 1;
    }

    /// Breaks the line at the cursor.
    pub fn editor_insert_newline(&mut self)
        requires
            old(self).wf(),
            old(self)@.insert_newline().dirty <= usize::MAX,
        ensures
            final(self).wf(),
            final(self)@ == old(self)@.insert_newline(),
    {
        if self.cursor_x == 0 {
            self.editor_insert_row(self.cursor_y, String::new());
        } else {
            let x = self.cursor_x;
            let y = self.cursor_y;
            let ghost before = self.rows@;
            let new_row = self.rows[y].split_off(x);
            proof {
                assert(self@.rows =~= rows_view(before).update(y as int, self.rows[y as int]@));
            }
            assert(y < self.rows.len());
            self.editor_insert_row(y + 1, new_row);
            self.dirty += 1;
        }
        assert(self.cursor_y < self.rows.len()) by {
            assert(self@.rows.len() == old(self)@.rows.len() + 1);
        }
        self.cursor_y += 1;
        self.cursor_x = 0;
    }

    /// Deletes the character before the cursor, or joins the cursor's row to
    /// the one before it.
    pub fn editor_delete_char(&mut self)
        requires
            old(self).wf(),
            old(self)@.delete_char().dirty <= usize::MAX,
        ensures
            final(self).wf(),
            final(self)@ == old(self)@.delete_char(),
    {
        if self.cursor_x == 0 && self.cursor_y == 0 {
            return ;
        }
        let y = self.cursor_y;
        let ghost before = self.rows@;
        if self.cursor_x > 0 {
            let x = self.cursor_x;
            self.rows[y].delete_char(x - 1);
            proof {
                assert(self@.rows =~= rows_view(before).update(y as int, self.rows[y as int]@));
            }
            self.cursor_x -= 1;
            self.dirty += 1;
        } else {
            let joined_at = self.rows[y - 1].len();
            let deleted_row = self.editor_delete_row(y);
            if let Some(row) = deleted_row {
                let ghost shorter = self.rows@;
                assert(shorter.len() == before.len() - 1) by {
                    assert(self@.rows.len() == rows_view(before).len() - 1);
                }
                self.rows[y - 1].append_row(&row);
                proof {
                    let texts = rows_view(before);
                    let joined = texts.update(y - 1, texts[y - 1] + texts[y as int]).remove(y as int);
                    assert(rows_view(shorter) == texts.remove(y as int));
                    assert forall|i: int| 0 <= i < joined.len() implies self@.rows[i] == joined[i] by {
                        if i != y - 1 {
                            assert(self.rows[i] == shorter[i]);
                            assert(rows_view(shorter)[i] == texts.remove(y as int)[i]);
                        } else {
                            assert(rows_view(shorter)[i] == texts.remove(y as int)[i]);
                        }
                    }
                    assert(self@.rows =~= joined);
                }
            }
            self.cursor_x = joined_at;
            self.cursor_y -= 1;
        }
    }

    /// The length of row `y`; zero where there is no such row.
    pub fn row_len(&self, y: usize) -> (len: usize)
        ensures
            len == self@.row_len(y as int),
    {
        if y < self.rows.len() {
            self.rows[y].len()
        } else {
            0
        }
    }

    /// Moves the cursor one step by an arrow key. Any other key moves nothing.
    pub fn editor_move_cursor(&mut self, key: Key)
        ensures
            final(self)@ == old(self)@.move_cursor(key),
            old(self)@.cursor_y <= old(self)@.rows.len() ==> final(self)@.cursor_in_text(),
    {
        let on_row = self.cursor_y < self.get_num_rows();
        match key {
            Key::ArrowLeft => {
                if self.cursor_x != 0 {
                    self.cursor_x -= 1;
                } else if self.cursor_y > 0 {
                    self.cursor_y -= 1;
                    self.cursor_x = self.row_len(self.cursor_y);
                }
            },
            Key::ArrowRight => {
                if on_row && self.cursor_x < self.row_len(self.cursor_y) {
                    self.cursor_x += 1;
                } else if on_row && self.cursor_x == self.row_len(self.cursor_y) {
                    self.cursor_y += 1;
                    self.cursor_x = 0;
                }
            },
            Key::ArrowUp => {
                if self.cursor_y > 0 {
                    self.cursor_y -= 1;
                }
            },
            Key::ArrowDown => {
                if self.cursor_y < self.get_num_rows() {
                    self.cursor_y += 1;
                }
            },
            _ => {},
        }
        let current_row_len = self.row_len(self.cursor_y);
        if self.cursor_x > current_row_len {
            self.cursor_x = current_row_len;
        }
    }

    /// Moves the window so that the cursor is on screen, by no more than
    /// that takes, and computes the display column of the cursor. The
    /// screen must have a line and a column for text: a window without
    /// them holds no cursor.
    pub fn editor_scroll(&mut self)
        requires
            old(self).screen_num_rows >= 1,
            old(self).screen_num_columns >= 1,
        ensures
            final(self)@ == old(self)@.scroll(),
            old(self).wf() ==> final(self).wf(),
            final(self)@.cursor_on_screen(),
            old(self)@.cursor_on_screen() && old(self)@.render_cursor_x == old(self)@.cursor_column()
                ==> final(self)@ == old(self)@,
    {
        self.render_cursor_x = 0;
        if self.cursor_y < self.get_num_rows() {
            self.render_cursor_x = self.rows[self.cursor_y].cursor_x_to_render_cursor_x(
                self.cursor_x,
            );
        }
        if self.cursor_y < self.row_offset {
            self.row_offset = self.cursor_y;
        }
        if self.cursor_y - self.row_offset >= self.screen_num_rows {
            self.row_offset = self.cursor_y - self.screen_num_rows + 1;
        }
        if self.render_cursor_x < self.column_offset {
            self.column_offset = self.render_cursor_x;
        }
        if self.render_cursor_x - self.column_offset >= self.screen_num_columns {
            self.column_offset = self.render_cursor_x - self.screen_num_columns + 1;
        }
    }

    /// Sets the status message, as of time `now`.
    pub fn editor_set_status_message(&mut self, message: &str, now: u64)
        ensures
            final(self)@ == old(self)@.set_status_message(message@, now as nat),
    {
        self.status_message = Some(String::from_str(message));
        self.status_message_time = now;
    }

    /// The stored form of the document as characters.
    pub fn rows_to_chars(&self) -> (text: Vec<char>)
        ensures
            text@ == join_lines(self@.rows),
    {
        let mut text: Vec<char> = Vec::new();
        let mut idx: usize = 0;
        while idx < self.rows.len()
            invariant
                idx <= self.rows.len(),
                text@ == join_lines(self@.rows.take(idx as int)),
            decreases self.rows.len() - idx,
        {
            if idx > 0 {
                text.push('\n');
            }
            push_all(&mut text, self.rows[idx].as_chars());
            proof {
                let next = self@.rows.take(idx + 1);
                assert(next.drop_last() == self@.rows.take(idx as int));
                assert(next.last() == self.rows[idx as int]@);
                if idx == 0 {
                    assert(text@ == self.rows[0]@);
                }
            }
            idx += 1;
        }
        assert(self@.rows.take(self.rows.len() as int) == self@.rows);
        text
    }

    /// The stored form of the document: the rows joined by newlines.
    pub fn editor_rows_to_string(&self) -> (text: String)
        ensures
            text@ == join_lines(self@.rows),
    {
        chars_to_string(&self.rows_to_chars())
    }

    /// Takes note that the file named `filename`, which was to be loaded,
    /// does not exist yet: records the name and marks the document as saved.
    /// The document gets no row from it, so a session that starts on such a
    /// file starts with an empty document.
    pub fn editor_open_missing(&mut self, filename: &str)
        ensures
            final(self)@ == old(self)@.open_missing(filename@),
    {
        self.filename = Some(String::from_str(filename));
        self.dirty = 0;
    }

    /// Loads `file_contents`, the text of the file named `filename`: adds
    /// its lines as rows after the rows that are there, records the name,
    /// and marks the document as saved. The empty text gives one empty row.
    pub fn editor_open(&mut self, filename: &str, file_contents: &str)
        ensures
            final(self)@ == old(self)@.open_file(filename@, file_contents@),
            old(self).wf() ==> final(self).wf(),
    {
        let chars = string_to_chars(file_contents);
        let mut line: Vec<char> = Vec::new();
        let mut i: usize = 0;
        let ghost strip = |l: Seq<char>| strip_line_end(l);
        while i < chars.len()
            invariant
                i <= chars.len(),
                split_lines(chars@.take(i as int)).len() >= 1,
                line@ == split_lines(chars@.take(i as int)).last(),
                strip == |l: Seq<char>| strip_line_end(l),
                self@ == (EditorView {
                    rows: old(self)@.rows + split_lines(chars@.take(i as int)).drop_last().map_values(
                        strip,
                    ),
                    ..old(self)@
                }),
            decreases chars.len() - i,
        {
            let ghost pieces = split_lines(chars@.take(i as int));
            let ghost before = self.rows@;
            proof {
                assert(chars@.take(i + 1).drop_last() == chars@.take(i as int));
            }
            if chars[i] == '\n' {
                strip_line(&mut line);
                let ghost stripped = line@;
                self.rows.push(EditorRow::from_chars(line));
                line = Vec::new();
                proof {
                    let next = pieces.push(Seq::empty());
                    assert(next.drop_last() == pieces);
                    assert(stripped == strip(pieces.last()));
                    assert(rows_view(self.rows@) =~= rows_view(before).push(stripped));
                    assert(pieces.map_values(strip) =~= pieces.drop_last().map_values(strip).push(
                        strip(pieces.last()),
                    ));
                    assert(self@.rows =~= old(self)@.rows + pieces.map_values(strip));
                }
            } else {
                line.push(chars[i]);
                proof {
                    let next = pieces.update(pieces.len() - 1, pieces.last().push(chars@[i as int]));
                    assert(next.drop_last() =~= pieces.drop_last());
                }
            }
            i += 1;
        }
        let ghost pieces = split_lines(chars@);
        let ghost before = self.rows@;
        proof {
            assert(chars@.take(chars.len() as int) == chars@);
        }
        strip_line(&mut line);
        let ghost stripped = line@;
        self.rows.push(EditorRow::from_chars(line));
        self.filename = Some(String::from_str(filename));
        self.dirty = 0;
        proof {
            assert(stripped == strip(pieces.last()));
            assert(rows_view(self.rows@) =~= rows_view(before).push(stripped));
            assert(pieces.map_values(strip) =~= pieces.drop_last().map_values(strip).push(
                strip(pieces.last()),
            ));
            assert(load_lines(file_contents@) =~= pieces.map_values(strip));
            assert(self@.rows =~= old(self)@.rows + load_lines(file_contents@));
        }
    }

    /// Takes note of how writing the document to its file went, at time
    /// `now`: the status message reports it, and after a success the
    /// document counts as saved. A document without a file name cannot have
    /// been written: the message says so and nothing else changes.
    pub fn editor_save(&mut self, outcome: SaveOutcome, now: u64)
        ensures
            final(self)@ == old(self)@.save_finished(outcome, now as nat),
    {
        if self.filename.is_none() {
            self.editor_set_status_message("No file open to save", now);
            return ;
        }
        match outcome {
            SaveOutcome::Written => {
                let text = self.rows_to_chars();
                let num_new_lines = count_char(&text, '\n');
                let written = chars_to_string(&text);
                let mut message: Vec<char> = Vec::new();
                push_decimal(&mut message, written.as_str().as_bytes().len() as u128);
                push_str(&mut message, " bytes written to disk ");
                push_decimal(&mut message, num_new_lines as u128);
                assert(message@ =~= saved_message(text@));
                let message = chars_to_string(&message);
                self.editor_set_status_message(message.as_str(), now);
                self.dirty = 0;
            },
            SaveOutcome::OpenFailed(reason) => {
                let mut message = String::from_str("Error opening file: ");
                message.append(reason.as_str());
                self.editor_set_status_message(message.as_str(), now);
            },
            SaveOutcome::WriteFailed(reason) => {
                let mut message = String::from_str("Error saving file: ");
                message.append(reason.as_str());
                self.editor_set_status_message(message.as_str(), now);
            },
        }
    }

    /// Moves the cursor `times` steps by the arrow key `key`.
    pub fn editor_move_cursor_times(&mut self, key: Key, times: usize)
        ensures
            final(self)@ == old(self)@.move_cursor_times(key, times as nat),
            final(self)@ == (EditorView {
                cursor_x: final(self)@.cursor_x,
                cursor_y: final(self)@.cursor_y,
                ..old(self)@
            }),
            old(self)@.cursor_y <= old(self)@.rows.len() && (times > 0 || old(
                self,
            )@.cursor_in_text()) ==> final(self)@.cursor_in_text(),
    {
        let mut done: usize = 0;
        while done < times
            invariant
                done <= times,
                self@ == old(self)@.move_cursor_times(key, done as nat),
                self@ == (EditorView { cursor_x: self@.cursor_x, cursor_y: self@.cursor_y, ..old(self)@ }),
                old(self)@.cursor_y <= old(self)@.rows.len() ==> self@.cursor_y <= self@.rows.len(),
                old(self)@.cursor_y <= old(self)@.rows.len() && (done > 0 || old(
                    self,
                )@.cursor_in_text()) ==> self@.cursor_in_text(),
            decreases times - done,
        {
            self.editor_move_cursor(key);
            done += 1;
        }
    }

    /// Moves the cursor up by a page. On a screen with a text line the
    /// cursor ends in the text, wherever it stood.
    pub fn editor_page_up(&mut self)
        ensures
            final(self)@ == old(self)@.page_up(),
            old(self).screen_num_rows >= 1 ==> final(self).wf(),
    {
        let num_rows = self.get_num_rows();
        self.cursor_y = if self.row_offset <= num_rows {
            self.row_offset
        } else {
            num_rows
        };
        self.editor_move_cursor_times(Key::ArrowUp, self.screen_num_rows);
    }

    /// Moves the cursor down by a page. The screen must have a text line:
    /// the bottom of a window without lines is no row.
    pub fn editor_page_down(&mut self)
        requires
            old(self).screen_num_rows >= 1,
        ensures
            final(self)@ == old(self)@.page_down(),
            final(self).wf(),
    {
        let num_rows = self.get_num_rows();
        let reach = self.screen_num_rows - 1;
        self.cursor_y = if self.row_offset <= num_rows && reach <= num_rows - self.row_offset {
            self.row_offset + reach
        } else {
            num_rows
        };
        self.editor_move_cursor_times(Key::ArrowDown, self.screen_num_rows);
    }

    /// Handles one key at time `now` and says what the caller is to do next.
    /// After `Action::Save` the caller writes the document to its file and
    /// reports the outcome with `editor_save`. A page down needs a screen
    /// with a text line, and the count of changes must fit after the key.
    pub fn editor_process_keypress(&mut self, key: Key, now: u64) -> (action: Action)
        requires
            old(self).wf(),
            key == Key::PageDown ==> old(self).screen_num_rows >= 1,
            old(self)@.process_key(key, now as nat).0.dirty <= usize::MAX,
        ensures
            (final(self)@, action) == old(self)@.process_key(key, now as nat),
            key != Key::PageUp || old(self).screen_num_rows >= 1 ==> final(self).wf(),
    {
        match key {
            Key::Byte(b) => {
                if b == CTRL_Q {
                    if self.dirty != 0 && self.quit_times > 0 {
                        let mut message: Vec<char> = Vec::new();
                        push_str(&mut message, "WARNING!!! File has unsaved changes. Press Ctrl-Q ");
                        push_decimal(&mut message, self.quit_times as u128);
                        push_str(&mut message, " more times to quit.");
                        assert(message@ =~= quit_warning(self.quit_times as nat));
                        let message = chars_to_string(&message);
                        self.editor_set_status_message(message.as_str(), now);
                        self.quit_times -= 1;
                        return Action::Continue;
                    }
                    return Action::Quit;
                } else if b == CTRL_S {
                    if self.filename.is_some() {
                        self.quit_times = KILO_QUIT_TIMES;
                        return Action::Save;
                    }
                    self.editor_set_status_message("No file open to save", now);
                } else if b == CARRIAGE_RETURN_KEY {
                    self.editor_insert_newline();
                } else if b == BACKSPACE_KEY || b == CTRL_H {
                    self.editor_delete_char();
                } else if b == ESCAPE_KEY || b == CTRL_L {
                } else if b < 128 {
                    self.editor_insert_char(b as char);
                }
            },
            Key::ArrowLeft | Key::ArrowRight | Key::ArrowUp | Key::ArrowDown => {
                self.editor_move_cursor(key);
            },
            Key::PageUp => {
                self.editor_page_up();
            },
            Key::PageDown => {
                self.editor_page_down();
            },
            Key::Home => {
                self.cursor_x = 0;
            },
            Key::End => {
                if self.cursor_y < self.get_num_rows() {
                    self.cursor_x = self.rows[self.cursor_y].len();
                }
            },
            Key::Delete => {
                self.editor_move_cursor(Key::ArrowRight);
                self.editor_delete_char();
            },
        }
        self.quit_times = KILO_QUIT_TIMES;
        Action::Continue
    }
}

} // verus!

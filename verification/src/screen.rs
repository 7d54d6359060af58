//! What the editor shows: one frame of terminal output per refresh.
//!
//! A frame hides the cursor, goes to the top left corner, draws the text
//! lines, the status bar and the message bar, puts the cursor where it
//! belongs and shows it again. The whole frame is one string, so that the
//! terminal never shows half a screen.

use vstd::prelude::*;
use crate::append_buffer::AppendBuffer;
use crate::editor::Editor;
use crate::model::{EditorView, MESSAGE_LIFETIME_MS};
use crate::row::spec_render;
use crate::text::{
    push_all, push_decimal, push_spaces, push_str, spaces, spec_decimal, string_to_chars,
};

verus! {

/// The line that greets the user of an empty editor.
pub const WELCOME: &'static str = "Kilo editor -- version 0.0.1";

/// The longest part of a file name that the status bar shows, in characters.
pub const STATUS_NAME_WIDTH: usize = 20;

/// The first `width` characters of `text`, or all of it if it has no more.
pub open spec fn clipped(text: Seq<char>, width: nat) -> Seq<char> {
    if text.len() > width {
        text.take(width as int)
    } else {
        text
    }
}

/// The welcome line on a screen of `columns` columns: the greeting, cut to
/// the width of the screen and centred; where there is room to its left, a
/// tilde stands in the first column.
pub open spec fn welcome_line(columns: nat) -> Seq<char> {
    let greeting = clipped(WELCOME@, columns);
    let padding = (columns - greeting.len()) / 2;
    if padding > 0 {
        "~"@ + spaces((padding - 1) as nat) + greeting
    } else {
        greeting
    }
}

/// The part of a rendered row that a window of `columns` columns shows when
/// it starts at display column `column_offset`.
pub open spec fn visible_part(render: Seq<char>, column_offset: nat, columns: nat) -> Seq<char> {
    if column_offset < render.len() {
        clipped(render.skip(column_offset as int), columns)
    } else {
        Seq::empty()
    }
}

/// The text of screen line `y`: the visible part of the row that stands
/// there; past the end of the document a tilde, or the welcome line a third
/// of the way down the screen of an editor without rows.
pub open spec fn screen_line(v: EditorView, y: nat) -> Seq<char> {
    let file_row = y + v.row_offset;
    if file_row >= v.rows.len() {
        if v.rows.len() == 0 && y == v.screen_num_rows / 3 {
            welcome_line(v.screen_num_columns)
        } else {
            "~"@
        }
    } else {
        visible_part(spec_render(v.rows[file_row as int]), v.column_offset, v.screen_num_columns)
    }
}

/// The first `count` screen lines, each followed by the sequence that clears
/// the rest of the line and by a line break.
pub open spec fn screen_lines(v: EditorView, count: nat) -> Seq<char>
    decreases count,
{
    if count == 0 {
        Seq::empty()
    } else {
        screen_lines(v, (count - 1) as nat) + screen_line(v, (count - 1) as nat) + "\x1b[K"@ + "\r\n"@
    }
}

/// The left part of the status bar: the file name, cut to twenty characters,
/// the number of lines, and a mark if there are unsaved changes.
pub open spec fn status_left(v: EditorView) -> Seq<char> {
    let name = match v.filename {
        Some(name) => name,
        None => "[No Name]"@,
    };
    clipped(name, STATUS_NAME_WIDTH as nat) + " - "@ + spec_decimal(v.rows.len()) + " lines "@ + (
    if v.dirty != 0 {
        "(modified)"@
    } else {
        Seq::empty()
    })
}

/// The right part of the status bar: the cursor's line, counted from one,
/// and the number of lines.
pub open spec fn status_right(v: EditorView) -> Seq<char> {
    spec_decimal(v.cursor_y + 1) + "/"@ + spec_decimal(v.rows.len())
}

/// The text of the status bar, exactly as wide as the screen: the left part,
/// cut if it is too long; then, if it fits, the right part at the right
/// edge; spaces fill the rest.
pub open spec fn status_text(v: EditorView) -> Seq<char> {
    let left = status_left(v);
    let right = status_right(v);
    let columns = v.screen_num_columns;
    if left.len() >= columns {
        left.take(columns as int)
    } else if columns - left.len() >= right.len() {
        left + spaces((columns - left.len() - right.len()) as nat) + right
    } else {
        left + spaces((columns - left.len()) as nat)
    }
}

/// The status bar: its text in inverse video, and a line break.
pub open spec fn status_bar(v: EditorView) -> Seq<char> {
    "\x1b[7m"@ + status_text(v) + "\x1b[m"@ + "\r\n"@
}

/// Whether the status message is still shown at time `now`: less than five
/// seconds have passed since it was set.
pub open spec fn message_visible(v: EditorView, now: nat) -> bool {
    now < v.status_message_time + MESSAGE_LIFETIME_MS
}

/// The message bar at time `now`: the line is cleared, and the status
/// message, cut to the width of the screen, is shown while it is fresh.
pub open spec fn message_bar(v: EditorView, now: nat) -> Seq<char> {
    let message = match v.status_message {
        Some(message) => message,
        None => Seq::empty(),
    };
    if message_visible(v, now) {
        "\x1b[K"@ + clipped(message, v.screen_num_columns)
    } else {
        "\x1b[K"@
    }
}

/// The sequence that puts the terminal's cursor where the editor's cursor
/// is shown; the terminal counts lines and columns from one.
pub open spec fn cursor_position(v: EditorView) -> Seq<char> {
    "\x1b["@ + spec_decimal((v.cursor_y - v.row_offset + 1) as nat) + ";"@ + spec_decimal(
        (v.render_cursor_x - v.column_offset + 1) as nat,
    ) + "H"@
}

/// One frame of output for the session `v` at time `now`.
pub open spec fn frame(v: EditorView, now: nat) -> Seq<char> {
    "\x1b[?25l"@ + "\x1b[H"@ + screen_lines(v, v.screen_num_rows) + status_bar(v) + message_bar(
        v,
        now,
    ) + cursor_position(v) + "\x1b[?25h"@
}

/// The text of the status bar is exactly as wide as the screen.
pub proof fn lemma_status_text_width(v: EditorView)
    ensures
        status_text(v).len() == v.screen_num_columns,
{
}

/// No screen line is wider than the screen, on a screen of at least one column.
pub proof fn lemma_screen_line_fits(v: EditorView, y: nat)
    requires
        v.screen_num_columns >= 1,
    ensures
        screen_line(v, y).len() <= v.screen_num_columns,
{
    reveal_strlit("~");
}

/// The welcome line of a screen that is wider than the greeting by two
/// columns or more starts with a tilde and ends with the whole greeting,
/// which stands in the middle: the room to its left and to its right
/// differs by one column at most.
pub proof fn lemma_welcome_is_centred(columns: nat)
    requires
        columns >= WELCOME@.len() + 2,
    ensures
        welcome_line(columns).len() == (columns - WELCOME@.len()) / 2 + WELCOME@.len(),
        welcome_line(columns).first() == '~',
        welcome_line(columns).skip((columns - WELCOME@.len()) / 2) == WELCOME@,
        0 <= (columns - welcome_line(columns).len()) - (columns - WELCOME@.len()) / 2 <= 1,
{
    reveal_strlit("~");
    let padding = (columns - WELCOME@.len()) / 2;
    let line = "~"@ + spaces((padding - 1) as nat) + WELCOME@;
    assert(line.skip(padding) =~= WELCOME@);
}

impl Editor {
    /// Draws the welcome line.
    fn draw_welcome(&self, buffer: &mut AppendBuffer)
        ensures
            final(buffer)@ == old(buffer)@ + welcome_line(self@.screen_num_columns),
    {
        let greeting = string_to_chars(WELCOME);
        let shown = if greeting.len() > self.screen_num_columns {
            self.screen_num_columns
        } else {
            greeting.len()
        };
        let padding = (self.screen_num_columns - shown) / 2;
        if padding > 0 {
            buffer.push("~");
            let mut fill: Vec<char> = Vec::new();
            push_spaces(&mut fill, padding - 1);
            buffer.push_chars(&fill, 0, padding - 1);
            assert(fill@.subrange(0, padding - 1) == spaces((padding - 1) as nat));
        }
        buffer.push_chars(&greeting, 0, shown);
        proof {
            assert(greeting@.subrange(0, shown as int) == clipped(WELCOME@, self@.screen_num_columns));
            assert(buffer@ =~= old(buffer)@ + welcome_line(self@.screen_num_columns));
        }
    }

    /// Draws the text lines of the screen.
    pub fn editor_draw_rows(&self, buffer: &mut AppendBuffer)
        ensures
            final(buffer)@ == old(buffer)@ + screen_lines(self@, self@.screen_num_rows),
    {
        let num_rows = self.get_num_rows();
        let mut y: usize = 0;
        while y < self.screen_num_rows
            invariant
                y <= self.screen_num_rows,
                num_rows == self.rows.len(),
                buffer@ == old(buffer)@ + screen_lines(self@, y as nat),
            decreases self.screen_num_rows - y,
        {
            let ghost before = buffer@;
            if self.row_offset >= num_rows || y >= num_rows - self.row_offset {
                if num_rows == 0 && y == self.screen_num_rows / 3 {
                    self.draw_welcome(buffer);
                } else {
                    buffer.push("~");
                }
            } else {
                let render = self.rows[y + self.row_offset].as_render();
                if self.column_offset < render.len() {
                    let end = if render.len() - self.column_offset > self.screen_num_columns {
                        self.column_offset + self.screen_num_columns
                    } else {
                        render.len()
                    };
                    buffer.push_chars(render, self.column_offset, end);
                    assert(render@.subrange(self.column_offset as int, end as int) =~= visible_part(
                        render@,
                        self.column_offset as nat,
                        self.screen_num_columns as nat,
                    ));
                }
            }
            assert(buffer@ =~= before + screen_line(self@, y as nat));
            buffer.push("\x1b[K");
            buffer.push("\r\n");
            y += 1;
            assert(buffer@ =~= old(buffer)@ + screen_lines(self@, y as nat));
        }
    }

    /// Draws the status bar.
    pub fn editor_draw_status_bar(&self, buffer: &mut AppendBuffer)
        ensures
            final(buffer)@ == old(buffer)@ + status_bar(self@),
    {
        let num_rows = self.get_num_rows();
        let name = match &self.filename {
            Some(name) => string_to_chars(name.as_str()),
            None => string_to_chars("[No Name]"),
        };
        let mut status: Vec<char> = Vec::new();
        let mut i: usize = 0;
        while i < name.len() && i < STATUS_NAME_WIDTH
            invariant
                i <= name.len(),
                i <= STATUS_NAME_WIDTH,
                status@ == name@.take(i as int),
            decreases name.len() - i,
        {
            status.push(name[i]);
            i += 1;
            assert(name@.take(i as int) == name@.take(i - 1).push(name@[i - 1]));
        }
        assert(status@ =~= clipped(name@, STATUS_NAME_WIDTH as nat));
        push_str(&mut status, " - ");
        push_decimal(&mut status, num_rows as u128);
        push_str(&mut status, " lines ");
        if self.dirty != 0 {
            push_str(&mut status, "(modified)");
        }
        assert(status@ =~= status_left(self@));

        let mut r_status: Vec<char> = Vec::new();
        push_decimal(&mut r_status, self.cursor_y as u128 + 1);
        push_str(&mut r_status, "/");
        push_decimal(&mut r_status, num_rows as u128);
        assert(r_status@ =~= status_right(self@));

        if status.len() >= self.screen_num_columns {
            status.truncate(self.screen_num_columns);
        } else {
            let gap = self.screen_num_columns - status.len();
            if gap >= r_status.len() {
                push_spaces(&mut status, gap - r_status.len());
                push_all(&mut status, &r_status);
            } else {
                push_spaces(&mut status, gap);
            }
        }
        assert(status@ =~= status_text(self@));

        buffer.push("\x1b[7m");
        buffer.push_chars(&status, 0, status.len());
        assert(status@.subrange(0, status.len() as int) == status@);
        buffer.push("\x1b[m");
        buffer.push("\r\n");
    }

    /// Draws the message bar as of time `now`.
    pub fn editor_draw_message_bar(&self, buffer: &mut AppendBuffer, now: u64)
        ensures
            final(buffer)@ == old(buffer)@ + message_bar(self@, now as nat),
    {
        buffer.push("\x1b[K");
        let elapsed = if now >= self.status_message_time {
            now - self.status_message_time
        } else {
            0
        };
        if elapsed < MESSAGE_LIFETIME_MS {
            match &self.status_message {
                Some(message) => {
                    let msg = string_to_chars(message.as_str());
                    let shown = if msg.len() > self.screen_num_columns {
                        self.screen_num_columns
                    } else {
                        msg.len()
                    };
                    buffer.push_chars(&msg, 0, shown);
                    assert(msg@.subrange(0, shown as int) =~= clipped(
                        message@,
                        self@.screen_num_columns,
                    ));
                },
                None => {
                    assert(buffer@ =~= old(buffer)@ + message_bar(self@, now as nat));
                },
            }
        }
    }

    /// Scrolls so that the cursor is on screen and returns the frame that
    /// shows the session at time `now`. The screen must have a line and a
    /// column for text.
    pub fn editor_refresh_screen(&mut self, now: u64) -> (output: String)
        requires
            old(self).screen_num_rows >= 1,
            old(self).screen_num_columns >= 1,
        ensures
            final(self)@ == old(self)@.scroll(),
            old(self).wf() ==> final(self).wf(),
            final(self)@.cursor_on_screen(),
            output@ == frame(final(self)@, now as nat),
    {
        self.editor_scroll();
        let mut buffer = AppendBuffer::new();
        buffer.push("\x1b[?25l");
        buffer.push("\x1b[H");
        self.editor_draw_rows(&mut buffer);
        self.editor_draw_status_bar(&mut buffer);
        self.editor_draw_message_bar(&mut buffer, now);
        let mut position: Vec<char> = Vec::new();
        push_str(&mut position, "\x1b[");
        push_decimal(&mut position, (self.cursor_y - self.row_offset) as u128 + 1);
        push_str(&mut position, ";");
        push_decimal(&mut position, (self.render_cursor_x - self.column_offset) as u128 + 1);
        push_str(&mut position, "H");
        assert(position@ =~= cursor_position(self@));
        buffer.push_chars(&position, 0, position.len());
        assert(position@.subrange(0, position.len() as int) == position@);
        buffer.push("\x1b[?25h");
        assert(buffer@ =~= frame(self@, now as nat));
        buffer.into_string()
    }
}

} // verus!

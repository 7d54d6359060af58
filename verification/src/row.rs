//! One line of text and the form in which it is displayed.
//!
//! A row is a sequence of characters. Its rendering is the same text with
//! every tab replaced by spaces up to the next tab stop. The row keeps the
//! rendering beside the text and recomputes it after every change.

use vstd::prelude::*;
use crate::text::{chars_to_string, push_all, push_str, spaces, string_to_chars};

verus! {

/// The distance between two tab stops, in columns.
pub const KILO_TAB_STOP: usize = 8;

/// The number of spaces that a tab at `column` is displayed as: as many as
/// reach the next tab stop, at least one.
pub open spec fn tab_width(column: nat) -> nat {
    (KILO_TAB_STOP - column % (KILO_TAB_STOP as nat)) as nat
}

/// The displayed form of `chars`: each tab becomes the spaces that lead to
/// the next tab stop, every other character stands for itself.
pub open spec fn spec_render(chars: Seq<char>) -> Seq<char>
    decreases chars.len(),
{
    if chars.len() == 0 {
        Seq::empty()
    } else {
        let before = spec_render(chars.drop_last());
        if chars.last() == '\t' {
            before + spaces(tab_width(before.len()))
        } else {
            before.push(chars.last())
        }
    }
}

/// The column at which the character at offset `cursor_x` of `chars` is
/// displayed: the width of the rendering of what stands before it. An offset
/// past the end counts as the end.
pub open spec fn spec_render_x(chars: Seq<char>, cursor_x: int) -> nat {
    if cursor_x <= 0 {
        0
    } else if cursor_x >= chars.len() {
        spec_render(chars).len()
    } else {
        spec_render(chars.take(cursor_x)).len()
    }
}

/// `chars` with `c` inserted at offset `at`; unchanged where `at` is past the end.
pub open spec fn spec_insert_char(chars: Seq<char>, at: int, c: char) -> Seq<char> {
    if 0 <= at <= chars.len() {
        chars.insert(at, c)
    } else {
        chars
    }
}

/// `chars` without the character at offset `at`; unchanged where there is none.
pub open spec fn spec_delete_char(chars: Seq<char>, at: int) -> Seq<char> {
    if 0 <= at < chars.len() {
        chars.remove(at)
    } else {
        chars
    }
}

/// What stays in a row that is split at offset `at`, and what leaves it. A
/// split past the end leaves the row whole and takes nothing.
pub open spec fn spec_split(chars: Seq<char>, at: int) -> (Seq<char>, Seq<char>) {
    if 0 <= at <= chars.len() {
        (chars.take(at), chars.skip(at))
    } else {
        (chars, Seq::empty())
    }
}

/// The rendering of a text extended by one character, from that of the text.
pub proof fn lemma_render_push(chars: Seq<char>, c: char)
    ensures
        spec_render(chars.push(c)) == if c == '\t' {
            spec_render(chars) + spaces(tab_width(spec_render(chars).len()))
        } else {
            spec_render(chars).push(c)
        },
{
    assert(chars.push(c).drop_last() == chars);
}

/// A longer prefix of a text has a rendering at least as wide.
pub proof fn lemma_render_prefix_width(chars: Seq<char>, a: int, b: int)
    requires
        0 <= a <= b <= chars.len(),
    ensures
        spec_render(chars.take(a)).len() <= spec_render(chars.take(b)).len(),
    decreases b - a,
{
    if a < b {
        lemma_render_prefix_width(chars, a, b - 1);
        assert(chars.take(b).drop_last() == chars.take(b - 1));
    }
}

/// A rendering is never shorter than its text.
pub proof fn lemma_render_no_shorter(chars: Seq<char>)
    ensures
        spec_render(chars).len() >= chars.len(),
    decreases chars.len(),
{
    if chars.len() > 0 {
        lemma_render_no_shorter(chars.drop_last());
    }
}

/// The display column never decreases as the cursor moves right.
pub proof fn lemma_render_x_monotonic(chars: Seq<char>, a: int, b: int)
    requires
        a <= b,
    ensures
        spec_render_x(chars, a) <= spec_render_x(chars, b),
{
    let len = chars.len() as int;
    let lo = if a <= 0 { 0 } else if a >= len { len } else { a };
    let hi = if b <= 0 { 0 } else if b >= len { len } else { b };
    lemma_render_prefix_width(chars, lo, hi);
    assert(chars.take(len) == chars);
    assert(chars.take(0) == Seq::<char>::empty());
}

/// The display column of the cursor depends only on the text before the
/// cursor: two texts that agree up to the cursor give the same column.
pub proof fn lemma_render_x_depends_on_prefix(first: Seq<char>, second: Seq<char>, cursor_x: int)
    requires
        0 <= cursor_x <= first.len(),
        cursor_x <= second.len(),
        first.take(cursor_x) == second.take(cursor_x),
    ensures
        spec_render_x(first, cursor_x) == spec_render_x(second, cursor_x),
{
    assert(first.take(first.len() as int) == first);
    assert(second.take(second.len() as int) == second);
    assert(first.take(0) == Seq::<char>::empty());
}

/// Inserting a character and deleting it again at the same offset gives back
/// the text, and with it the rendering.
pub proof fn lemma_insert_then_delete(chars: Seq<char>, at: int, c: char)
    requires
        0 <= at <= chars.len(),
    ensures
        spec_delete_char(spec_insert_char(chars, at, c), at) == chars,
        spec_render(spec_delete_char(spec_insert_char(chars, at, c), at)) == spec_render(chars),
{
    assert(chars.insert(at, c).remove(at) =~= chars);
}

/// Splitting a text at any offset and joining the two halves gives back the text.
pub proof fn lemma_split_then_join(chars: Seq<char>, at: int)
    requires
        0 <= at <= chars.len(),
    ensures
        spec_split(chars, at).0 + spec_split(chars, at).1 == chars,
        spec_render(spec_split(chars, at).0 + spec_split(chars, at).1) == spec_render(chars),
{
    assert(chars.take(at) + chars.skip(at) =~= chars);
}

/// The rendering of `chars`, computed.
pub fn render_chars(chars: &Vec<char>) -> (render: Vec<char>)
    ensures
        render@ == spec_render(chars@),
{
    let mut render: Vec<char> = Vec::new();
    let mut i: usize = 0;
    while i < chars.len()
        invariant
            i <= chars.len(),
            render@ == spec_render(chars@.take(i as int)),
        decreases chars.len() - i,
    {
        let c = chars[i];
        let ghost before = render@;
        proof {
            assert(chars@.take(i + 1) == chars@.take(i as int).push(c));
            lemma_render_push(chars@.take(i as int), c);
        }
        if c == '\t' {
            render.push(' ');
            while render.len() % KILO_TAB_STOP != 0
                invariant
                    before.len() < render.len() <= before.len() + tab_width(before.len()),
                    render@ == before + spaces((render.len() - before.len()) as nat),
                decreases before.len() + tab_width(before.len()) - render.len(),
            {
                render.push(' ');
            }
            assert(render.len() == before.len() + tab_width(before.len()));
        } else {
            render.push(c);
        }
        i += 1;
    }
    assert(chars@.take(chars.len() as int) == chars@);
    render
}

/// One line of the document: its text, and beside it the rendering of the
/// text, which is kept up to date through every change.
#[derive(Debug)]
pub struct EditorRow {
    chars: Vec<char>,
    render: Vec<char>,
}

impl View for EditorRow {
    type V = Seq<char>;

    /// The text of the row.
    closed spec fn view(&self) -> Seq<char> {
        self.chars@
    }
}

impl EditorRow {
    /// The rendering that the row keeps is that of its text.
    #[verifier::type_invariant]
    spec fn in_sync(self) -> bool {
        self.render@ == spec_render(self.chars@)
    }

    /// The length of a row fits the machine's word.
    pub proof fn lemma_len_fits(&self)
        ensures
            self@.len() <= usize::MAX,
    {
        vstd::std_specs::vec::axiom_spec_len(&self.chars);
    }

    /// A row that holds the characters of `chars`.
    pub fn new(chars: String) -> (row: EditorRow)
        ensures
            row@ == chars@,
    {
        EditorRow::from_chars(string_to_chars(chars.as_str()))
    }

    /// A row that holds `chars`.
    pub fn from_chars(chars: Vec<char>) -> (row: EditorRow)
        ensures
            row@ == chars@,
    {
        let render = render_chars(&chars);
        EditorRow { chars, render }
    }

    /// Takes the text out of the row, which is left empty.
    fn take_chars(&mut self) -> (chars: Vec<char>)
        ensures
            chars@ == old(self)@,
            final(self)@ == Seq::<char>::empty(),
    {
        let mut taken = EditorRow { chars: Vec::new(), render: Vec::new() };
        core::mem::swap(self, &mut taken);
        taken.chars
    }

    /// Gives the row the text `chars` and the rendering of it.
    fn put_chars(&mut self, chars: Vec<char>)
        ensures
            final(self)@ == chars@,
    {
        let render = render_chars(&chars);
        *self = EditorRow { chars, render };
    }

    /// The number of characters in the row.
    pub fn len(&self) -> (len: usize)
        ensures
            len == self@.len(),
    {
        self.chars.len()
    }

    /// The characters of the row.
    pub fn as_chars(&self) -> (chars: &Vec<char>)
        ensures
            chars@ == self@,
    {
        &self.chars
    }

    /// The characters of the row's rendering.
    pub fn as_render(&self) -> (render: &Vec<char>)
        ensures
            render@ == spec_render(self@),
    {
        proof {
            use_type_invariant(self);
        }
        &self.render
    }

    /// The text of the row as a string.
    pub fn chars(&self) -> (chars: String)
        ensures
            chars@ == self@,
    {
        chars_to_string(&self.chars)
    }

    /// The rendering of the row as a string.
    pub fn render(&self) -> (render: String)
        ensures
            render@ == spec_render(self@),
    {
        chars_to_string(self.as_render())
    }

    /// Recomputes the rendering from the text. Every change of the text
    /// does so by itself, so a call from outside finds nothing to change.
    pub fn update_render(&mut self)
        ensures
            final(self)@ == old(self)@,
    {
        self.render = render_chars(&self.chars);
    }

    /// The column at which the character at offset `cursor_x` is displayed.
    /// An offset past the end of the row counts as the end.
    pub fn cursor_x_to_render_cursor_x(&self, cursor_x: usize) -> (render_cursor_x: usize)
        ensures
            render_cursor_x == spec_render_x(self@, cursor_x as int),
            render_cursor_x <= spec_render(self@).len(),
    {
        proof {
            use_type_invariant(self);
        }
        let end = if cursor_x < self.chars.len() {
            cursor_x
        } else {
            self.chars.len()
        };
        let width = self.render.len();
        let mut render_cursor_x: usize = 0;
        let mut i: usize = 0;
        while i < end
            invariant
                i <= end <= self.chars.len(),
                width == spec_render(self.chars@).len(),
                render_cursor_x == spec_render(self.chars@.take(i as int)).len(),
            decreases end - i,
        {
            proof {
                let c = self.chars@[i as int];
                assert(self.chars@.take(i + 1) == self.chars@.take(i as int).push(c));
                lemma_render_push(self.chars@.take(i as int), c);
                lemma_render_prefix_width(self.chars@, i + 1, self.chars@.len() as int);
                assert(self.chars@.take(self.chars@.len() as int) == self.chars@);
                assert(spec_render(self.chars@.take(i + 1)).len() == render_cursor_x + (if c == '\t' {
                    tab_width(render_cursor_x as nat)
                } else {
                    1
                }));
            }
            if self.chars[i] == '\t' {
                render_cursor_x += KILO_TAB_STOP - 1 - (render_cursor_x % KILO_TAB_STOP);
            }
            render_cursor_x += 1;
            i += 1;
        }
        proof {
            assert(self.chars@.take(self.chars@.len() as int) == self.chars@);
            assert(self.chars@.take(0) == Seq::<char>::empty());
            lemma_render_prefix_width(self.chars@, end as int, self.chars@.len() as int);
        }
        render_cursor_x
    }

    /// Inserts `c` at offset `at`. An offset past the end changes nothing.
    pub fn insert_char(&mut self, at: usize, c: char)
        ensures
            final(self)@ == spec_insert_char(old(self)@, at as int, c),
    {
        let mut chars = self.take_chars();
        if at <= chars.len() {
            chars.insert(at, c);
        }
        self.put_chars(chars);
    }

    /// Removes the character at offset `at`. Where there is none, nothing changes.
    pub fn delete_char(&mut self, at: usize)
        ensures
            final(self)@ == spec_delete_char(old(self)@, at as int),
    {
        let mut chars = self.take_chars();
        if at < chars.len() {
            chars.remove(at);
        }
        self.put_chars(chars);
    }

    /// Appends the characters of `s`.
    pub fn append_string(&mut self, s: &str)
        ensures
            final(self)@ == old(self)@ + s@,
    {
        let mut chars = self.take_chars();
        push_str(&mut chars, s);
        self.put_chars(chars);
    }

    /// Appends the characters of `other`.
    pub fn append_row(&mut self, other: &EditorRow)
        ensures
            final(self)@ == old(self)@ + other@,
    {
        let mut chars = self.take_chars();
        push_all(&mut chars, &other.chars);
        self.put_chars(chars);
    }

    /// Cuts the row at offset `at` and returns what stood from there on. An
    /// offset past the end leaves the row whole and returns the empty string.
    pub fn split_off(&mut self, at: usize) -> (tail: String)
        ensures
            final(self)@ == spec_split(old(self)@, at as int).0,
            tail@ == spec_split(old(self)@, at as int).1,
    {
        let mut chars = self.take_chars();
        let tail = if at <= chars.len() {
            chars.split_off(at)
        } else {
            Vec::new()
        };
        self.put_chars(chars);
        chars_to_string(&tail)
    }
}

} // verus!

//! The buffer in which one frame of output is gathered before it is written.

use vstd::prelude::*;
use vstd::string::*;

verus! {

/// Text gathered piece by piece, to be written to the terminal in one go.
#[derive(Debug)]
pub struct AppendBuffer {
    buf: String,
}

impl View for AppendBuffer {
    type V = Seq<char>;

    /// What was gathered so far.
    closed spec fn view(&self) -> Seq<char> {
        self.buf@
    }
}

impl AppendBuffer {
    /// An empty buffer.
    pub fn new() -> (buffer: AppendBuffer)
        ensures
            buffer@ == Seq::<char>::empty(),
    {
        AppendBuffer { buf: String::new() }
    }

    /// Appends `s`.
    pub fn push(&mut self, s: &str)
        ensures
            final(self)@ == old(self)@ + s@,
    {
        self.buf.append(s);
    }

    /// Appends the characters of `chars` from offset `from` up to, not
    /// including, offset `to`.
    pub fn push_chars(&mut self, chars: &Vec<char>, from: usize, to: usize)
        requires
            from <= to <= chars.len(),
        ensures
            final(self)@ == old(self)@ + chars@.subrange(from as int, to as int),
    {
        let mut i: usize = from;
        while i < to
            invariant
                from <= i <= to <= chars.len(),
                self.buf@ == old(self).buf@ + chars@.subrange(from as int, i as int),
            decreases to - i,
        {
            self.buf.push(chars[i]);
            i += 1;
            assert(chars@.subrange(from as int, i as int) == chars@.subrange(from as int, i - 1).push(
                chars@[i - 1],
            ));
        }
    }

    /// What was gathered so far.
    pub fn as_str(&self) -> (s: &str)
        ensures
            s@ == self@,
    {
        self.buf.as_str()
    }

    /// Gives up the buffer for the text that it gathered.
    pub fn into_string(self) -> (s: String)
        ensures
            s@ == self@,
    {
        self.buf
    }
}

} // verus!

//! Logical keys and the decoder that turns raw input bytes into them.
//!
//! A terminal sends a navigation key as an escape sequence of up to four
//! bytes. The decoder is a state machine that is fed one input at a time,
//! either a byte or the news that the bounded wait for a byte ran out, and
//! that answers with a key as soon as one is complete. A sequence that is cut
//! short or not recognised yields a plain Escape and leaves the decoder ready
//! for the next key.

use vstd::prelude::*;

verus! {

/// The byte that starts every escape sequence, and the Escape key itself.
pub const ESCAPE_KEY: u8 = 0x1b;

/// The byte that the Enter key sends in raw mode.
pub const CARRIAGE_RETURN_KEY: u8 = 13;

/// The byte that the Backspace key sends.
pub const BACKSPACE_KEY: u8 = 127;

/// The byte of Control with Q: quit.
pub const CTRL_Q: u8 = 0x11;

/// The byte of Control with S: save.
pub const CTRL_S: u8 = 0x13;

/// The byte of Control with H: delete backwards.
pub const CTRL_H: u8 = 0x08;

/// The byte of Control with L: redraw.
pub const CTRL_L: u8 = 0x0c;

/// The byte `[`, which follows the escape byte in most sequences.
pub const LEFT_BRACKET: u8 = 0x5b;

/// The byte `O`, which follows the escape byte in some sequences.
pub const UPPER_O: u8 = 0x4f;

/// The byte `~`, which ends the sequences that hold a digit.
pub const TILDE: u8 = 0x7e;

/// The byte `A`.
pub const UPPER_A: u8 = 0x41;

/// The byte `B`.
pub const UPPER_B: u8 = 0x42;

/// The byte `C`.
pub const UPPER_C: u8 = 0x43;

/// The byte `D`.
pub const UPPER_D: u8 = 0x44;

/// The byte `F`.
pub const UPPER_F: u8 = 0x46;

/// The byte `H`.
pub const UPPER_H: u8 = 0x48;

/// The byte `1`.
pub const DIGIT_1: u8 = 0x31;

/// The byte `3`.
pub const DIGIT_3: u8 = 0x33;

/// The byte `4`.
pub const DIGIT_4: u8 = 0x34;

/// The byte `5`.
pub const DIGIT_5: u8 = 0x35;

/// The byte `6`.
pub const DIGIT_6: u8 = 0x36;

/// The byte `7`.
pub const DIGIT_7: u8 = 0x37;

/// The byte `8`.
pub const DIGIT_8: u8 = 0x38;

/// The byte `9`.
pub const DIGIT_9: u8 = 0x39;

/// A decoded input event: a literal byte, or one of nine navigation keys.
#[derive(Clone, Copy, Debug, PartialEq, Eq, Structural)]
pub enum Key {
    /// A byte as it was read: a printable character, a control chord,
    /// Enter, Backspace or Escape.
    Byte(u8),
    ArrowLeft,
    ArrowRight,
    ArrowUp,
    ArrowDown,
    PageUp,
    PageDown,
    Home,
    End,
    Delete,
}

/// Where the decoder stands inside an escape sequence.
#[derive(Clone, Copy, Debug, PartialEq, Eq, Structural)]
pub enum DecoderState {
    /// Between keys.
    Normal,
    /// The escape byte was read.
    SawEscape,
    /// The escape byte and then `[` or `O` were read.
    SawBracketOrO,
    /// The escape byte, `[` or `O`, and then this digit were read.
    AwaitingTilde(u8),
}

/// The byte of the control chord of `k`: the low five bits of `k`.
pub open spec fn spec_ctrl_char(k: u8) -> u8 {
    k & 0x1f
}

/// The byte that the terminal sends when `k` is pressed with Control held.
pub fn ctrl_char(k: u8) -> (chord: u8)
    ensures
        chord == spec_ctrl_char(k),
{
    k & 0x1f
}

/// The named chords are the chords of their letters.
pub proof fn lemma_named_chords()
    ensures
        spec_ctrl_char(0x71) == CTRL_Q,
        spec_ctrl_char(0x73) == CTRL_S,
        spec_ctrl_char(0x68) == CTRL_H,
        spec_ctrl_char(0x6c) == CTRL_L,
{
    assert(0x71u8 & 0x1f == 0x11) by (bit_vector);
    assert(0x73u8 & 0x1f == 0x13) by (bit_vector);
    assert(0x68u8 & 0x1f == 0x08) by (bit_vector);
    assert(0x6cu8 & 0x1f == 0x0c) by (bit_vector);
}

/// The key named by the byte that follows `ESC [` or `ESC O`, where that byte
/// ends the sequence. A byte outside the table gives Escape.
pub open spec fn letter_key(b: u8) -> Key {
    if b == UPPER_A {
        Key::ArrowUp
    } else if b == UPPER_B {
        Key::ArrowDown
    } else if b == UPPER_C {
        Key::ArrowRight
    } else if b == UPPER_D {
        Key::ArrowLeft
    } else if b == UPPER_H {
        Key::Home
    } else if b == UPPER_F {
        Key::End
    } else {
        Key::Byte(ESCAPE_KEY)
    }
}

/// The key named by a digit that was followed by `~`. A digit outside the
/// table gives Escape.
pub open spec fn tilde_key(digit: u8) -> Key {
    if digit == DIGIT_1 || digit == DIGIT_7 {
        Key::Home
    } else if digit == DIGIT_3 {
        Key::Delete
    } else if digit == DIGIT_4 || digit == DIGIT_8 {
        Key::End
    } else if digit == DIGIT_5 {
        Key::PageUp
    } else if digit == DIGIT_6 {
        Key::PageDown
    } else {
        Key::Byte(ESCAPE_KEY)
    }
}

/// Whether `b` is one of the digits `1` to `9`.
pub open spec fn is_sequence_digit(b: u8) -> bool {
    DIGIT_1 <= b <= DIGIT_9
}

/// One transition of the decoder: the state after `input` was read in
/// `state`, and the key that this input completes, if it completes one.
/// `None` as input stands for a wait that ended without a byte.
pub open spec fn decode_step(state: DecoderState, input: Option<u8>) -> (DecoderState, Option<Key>) {
    match state {
        DecoderState::Normal => match input {
            None => (DecoderState::Normal, None),
            Some(b) => if b == ESCAPE_KEY {
                (DecoderState::SawEscape, None)
            } else {
                (DecoderState::Normal, Some(Key::Byte(b)))
            },
        },
        DecoderState::SawEscape => match input {
            Some(b) => if b == LEFT_BRACKET || b == UPPER_O {
                (DecoderState::SawBracketOrO, None)
            } else {
                (DecoderState::Normal, Some(Key::Byte(ESCAPE_KEY)))
            },
            None => (DecoderState::Normal, Some(Key::Byte(ESCAPE_KEY))),
        },
        DecoderState::SawBracketOrO => match input {
            Some(b) => if is_sequence_digit(b) {
                (DecoderState::AwaitingTilde(b), None)
            } else {
                (DecoderState::Normal, Some(letter_key(b)))
            },
            None => (DecoderState::Normal, Some(Key::Byte(ESCAPE_KEY))),
        },
        DecoderState::AwaitingTilde(digit) => match input {
            Some(b) => if b == TILDE {
                (DecoderState::Normal, Some(tilde_key(digit)))
            } else {
                (DecoderState::Normal, Some(Key::Byte(ESCAPE_KEY)))
            },
            None => (DecoderState::Normal, Some(Key::Byte(ESCAPE_KEY))),
        },
    }
}

/// The state after all of `inputs` were read one after the other, starting in
/// `state`, and the keys that they completed, in order.
pub open spec fn decode_all(state: DecoderState, inputs: Seq<Option<u8>>) -> (DecoderState, Seq<Key>)
    decreases inputs.len(),
{
    if inputs.len() == 0 {
        (state, Seq::empty())
    } else {
        let (before, keys) = decode_all(state, inputs.drop_last());
        let (after, key) = decode_step(before, inputs.last());
        match key {
            Some(k) => (after, keys.push(k)),
            None => (after, keys),
        }
    }
}

/// The escape-sequence decoder.
#[derive(Debug)]
pub struct KeyDecoder {
    state: DecoderState,
}

impl View for KeyDecoder {
    type V = DecoderState;

    /// The state the decoder is in.
    closed spec fn view(&self) -> DecoderState {
        self.state
    }
}

/// `letter_key`, computed.
fn key_of_letter(b: u8) -> (key: Key)
    ensures
        key == letter_key(b),
{
    if b == UPPER_A {
        Key::ArrowUp
    } else if b == UPPER_B {
        Key::ArrowDown
    } else if b == UPPER_C {
        Key::ArrowRight
    } else if b == UPPER_D {
        Key::ArrowLeft
    } else if b == UPPER_H {
        Key::Home
    } else if b == UPPER_F {
        Key::End
    } else {
        Key::Byte(ESCAPE_KEY)
    }
}

/// `tilde_key`, computed.
fn key_of_digit(digit: u8) -> (key: Key)
    ensures
        key == tilde_key(digit),
{
    if digit == DIGIT_1 || digit == DIGIT_7 {
        Key::Home
    } else if digit == DIGIT_3 {
        Key::Delete
    } else if digit == DIGIT_4 || digit == DIGIT_8 {
        Key::End
    } else if digit == DIGIT_5 {
        Key::PageUp
    } else if digit == DIGIT_6 {
        Key::PageDown
    } else {
        Key::Byte(ESCAPE_KEY)
    }
}

impl KeyDecoder {
    /// A decoder that stands between keys.
    pub fn new() -> (decoder: KeyDecoder)
        ensures
            decoder@ == DecoderState::Normal,
    {
        KeyDecoder { state: DecoderState::Normal }
    }

    /// The state the decoder is in.
    pub fn state(&self) -> (state: DecoderState)
        ensures
            state == self@,
    {
        self.state
    }

    /// Reads one input, a byte or `None` for a wait that ended without one,
    /// and returns the key that it completes, if any.
    pub fn feed(&mut self, input: Option<u8>) -> (key: Option<Key>)
        ensures
            (final(self)@, key) == decode_step(old(self)@, input),
            key is Some ==> final(self)@ == DecoderState::Normal,
    {
        let escape = Some(Key::Byte(ESCAPE_KEY));
        match self.state {
            DecoderState::Normal => match input {
                None => None,
                Some(b) => {
                    if b == ESCAPE_KEY {
                        self.state = DecoderState::SawEscape;
                        None
                    } else {
                        Some(Key::Byte(b))
                    }
                },
            },
            DecoderState::SawEscape => match input {
                Some(b) => {
                    if b == LEFT_BRACKET || b == UPPER_O {
                        self.state = DecoderState::SawBracketOrO;
                        None
                    } else {
                        self.state = DecoderState::Normal;
                        escape
                    }
                },
                None => {
                    self.state = DecoderState::Normal;
                    escape
                },
            },
            DecoderState::SawBracketOrO => match input {
                Some(b) => {
                    if DIGIT_1 <= b && b <= DIGIT_9 {
                        self.state = DecoderState::AwaitingTilde(b);
                        None
                    } else {
                        self.state = DecoderState::Normal;
                        Some(key_of_letter(b))
                    }
                },
                None => {
                    self.state = DecoderState::Normal;
                    escape
                },
            },
            DecoderState::AwaitingTilde(digit) => match input {
                Some(b) => {
                    self.state = DecoderState::Normal;
                    if b == TILDE {
                        Some(key_of_digit(digit))
                    } else {
                        escape
                    }
                },
                None => {
                    self.state = DecoderState::Normal;
                    escape
                },
            },
        }
    }

    /// Reads all of `inputs` one after the other and returns the keys that
    /// they complete, in order.
    pub fn feed_all(&mut self, inputs: &Vec<Option<u8>>) -> (keys: Vec<Key>)
        ensures
            (final(self)@, keys@) == decode_all(old(self)@, inputs@),
    {
        let mut keys: Vec<Key> = Vec::new();
        let mut i: usize = 0;
        while i < inputs.len()
            invariant
                i <= inputs.len(),
                (self@, keys@) == decode_all(old(self)@, inputs@.take(i as int)),
            decreases inputs.len() - i,
        {
            assert(inputs@.take(i + 1).drop_last() == inputs@.take(i as int));
            match self.feed(inputs[i]) {
                Some(k) => keys.push(k),
                None => {},
            }
            i += 1;
        }
        assert(inputs@.take(inputs.len() as int) == inputs@);
        keys
    }
}

/// Whatever the decoder has read, a wait that ends without a byte brings it
/// back between keys; inside a sequence it yields Escape, between keys nothing.
pub proof fn lemma_timeout_resets(state: DecoderState)
    ensures
        decode_step(state, None).0 == DecoderState::Normal,
        state != DecoderState::Normal ==> decode_step(state, None).1 == Some(Key::Byte(ESCAPE_KEY)),
        state == DecoderState::Normal ==> decode_step(state, None).1 is None,
{
}

/// An escape byte read between keys is followed by at most three more
/// inputs before a key comes out: no sequence is longer than four bytes.
pub proof fn lemma_sequence_is_bounded(a: Option<u8>, b: Option<u8>, c: Option<u8>)
    ensures
        ({
            let s0 = decode_step(DecoderState::Normal, Some(ESCAPE_KEY)).0;
            let (s1, k1) = decode_step(s0, a);
            let (s2, k2) = decode_step(s1, b);
            let (s3, k3) = decode_step(s2, c);
            k1 is Some || k2 is Some || k3 is Some
        }),
{
}

} // verus!

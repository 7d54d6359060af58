//! What the editor has from the terminal: its size, the attributes to give
//! back to it at exit, and the attributes of raw mode.
//!
//! In raw mode the terminal hands over every byte as it is typed: it does
//! not echo, does not wait for the end of the line, does not turn control
//! characters into signals, changes nothing in what is sent or received,
//! and lets a read return after a tenth of a second without a byte.

use vstd::prelude::*;

verus! {

/// The terminal attributes of the `termios` crate. The editor only keeps the
/// value; it never looks inside.
#[verifier::external_type_specification]
#[verifier::external_body]
pub struct ExTermios(termios::Termios);

/// The attributes of a terminal that raw mode is about, as plain numbers.
#[derive(Clone, Copy, Debug, PartialEq, Eq, Structural)]
pub struct TerminalModes {
    /// The input flags.
    pub input: u64,
    /// The output flags.
    pub output: u64,
    /// The control flags.
    pub control: u64,
    /// The local flags.
    pub local: u64,
    /// The least number of bytes that a read waits for.
    pub min_bytes: u8,
    /// The longest time that a read waits, in tenths of a second.
    pub timeout: u8,
}

/// The flag bits that raw mode is about, each under its name, with the
/// values that the platform gives them.
#[derive(Clone, Copy, Debug, PartialEq, Eq, Structural)]
pub struct ModeBits {
    /// Input: a break condition sends an interrupt signal.
    pub brkint: u64,
    /// Input: a carriage return is read as a newline.
    pub icrnl: u64,
    /// Input: parity is checked.
    pub inpck: u64,
    /// Input: the eighth bit of each byte is stripped.
    pub istrip: u64,
    /// Input: Control with S and with Q stop and resume the output.
    pub ixon: u64,
    /// Output: the output is processed, so that a newline also returns the carriage.
    pub opost: u64,
    /// Control: a character has eight bits.
    pub cs8: u64,
    /// Local: what is typed is echoed.
    pub echo: u64,
    /// Local: input is handed over line by line.
    pub icanon: u64,
    /// Local: Control with V and with O have their special meaning.
    pub iexten: u64,
    /// Local: Control with C and with Z send signals.
    pub isig: u64,
}

/// `term_size::dimensions`: the width and the height of the terminal in
/// character cells, or `None` where no standard stream is a terminal. The
/// answer depends on the terminal, so nothing is claimed of it.
#[verifier::external_body]
pub(crate) fn terminal_dimensions() -> (dimensions: Option<(usize, usize)>) {
    term_size::dimensions()
}

/// The constants `BRKINT`, `ICRNL`, `INPCK`, `ISTRIP`, `IXON`, `OPOST`,
/// `CS8`, `ECHO`, `ICANON`, `IEXTEN` and `ISIG` of the `termios` crate, each
/// in the field of its name. Their values differ between platforms, so
/// nothing is claimed of them.
#[verifier::external_body]
pub(crate) fn platform_mode_bits() -> (bits: ModeBits) {
    ModeBits {
        brkint: termios::BRKINT as u64,
        icrnl: termios::ICRNL as u64,
        inpck: termios::INPCK as u64,
        istrip: termios::ISTRIP as u64,
        ixon: termios::IXON as u64,
        opost: termios::OPOST as u64,
        cs8: termios::CS8 as u64,
        echo: termios::ECHO as u64,
        icanon: termios::ICANON as u64,
        iexten: termios::IEXTEN as u64,
        isig: termios::ISIG as u64,
    }
}

/// The attributes of raw mode on a terminal with the attributes `original`,
/// where the flag bits have the values `bits`: the flags that stand in the
/// way are cleared, characters have eight bits, and a read waits for no
/// byte and for a tenth of a second at most. All other flags stay.
pub open spec fn spec_raw_modes(original: TerminalModes, bits: ModeBits) -> TerminalModes {
    TerminalModes {
        input: original.input & !(bits.brkint | bits.icrnl | bits.inpck | bits.istrip | bits.ixon),
        output: original.output & !bits.opost,
        control: original.control | bits.cs8,
        local: original.local & !(bits.echo | bits.icanon | bits.iexten | bits.isig),
        min_bytes: 0,
        timeout: 1,
    }
}

/// The attributes of raw mode on a terminal with the attributes `original`,
/// where the flag bits have the values `bits`.
pub fn raw_modes_with(original: TerminalModes, bits: ModeBits) -> (raw: TerminalModes)
    ensures
        raw == spec_raw_modes(original, bits),
{
    TerminalModes {
        input: original.input & !(bits.brkint | bits.icrnl | bits.inpck | bits.istrip | bits.ixon),
        output: original.output & !bits.opost,
        control: original.control | bits.cs8,
        local: original.local & !(bits.echo | bits.icanon | bits.iexten | bits.isig),
        min_bytes: 0,
        timeout: 1,
    }
}

/// The attributes of raw mode on a terminal of this platform with the
/// attributes `original`.
pub fn raw_modes(original: TerminalModes) -> (raw: TerminalModes)
    ensures
        exists|bits: ModeBits| raw == spec_raw_modes(original, bits),
        raw.min_bytes == 0,
        raw.timeout == 1,
{
    let bits = platform_mode_bits();
    raw_modes_with(original, bits)
}

/// In raw mode each of the flags that stand in the way is off and
/// characters have eight bits, whatever the attributes were before.
pub proof fn lemma_raw_modes_are_raw(original: TerminalModes, bits: ModeBits)
    ensures
        spec_raw_modes(original, bits).input & bits.brkint == 0,
        spec_raw_modes(original, bits).input & bits.icrnl == 0,
        spec_raw_modes(original, bits).input & bits.inpck == 0,
        spec_raw_modes(original, bits).input & bits.istrip == 0,
        spec_raw_modes(original, bits).input & bits.ixon == 0,
        spec_raw_modes(original, bits).output & bits.opost == 0,
        spec_raw_modes(original, bits).control & bits.cs8 == bits.cs8,
        spec_raw_modes(original, bits).local & bits.echo == 0,
        spec_raw_modes(original, bits).local & bits.icanon == 0,
        spec_raw_modes(original, bits).local & bits.iexten == 0,
        spec_raw_modes(original, bits).local & bits.isig == 0,
{
    let i = original.input;
    let (a, b, c, d, e) = (bits.brkint, bits.icrnl, bits.inpck, bits.istrip, bits.ixon);
    assert((i & !(a | b | c | d | e)) & a == 0 && (i & !(a | b | c | d | e)) & b == 0 && (i & !(a
        | b | c | d | e)) & c == 0 && (i & !(a | b | c | d | e)) & d == 0 && (i & !(a | b | c | d
        | e)) & e == 0) by (bit_vector);
    let o = original.output;
    let p = bits.opost;
    assert((o & !p) & p == 0) by (bit_vector);
    let k = original.control;
    let s = bits.cs8;
    assert((k | s) & s == s) by (bit_vector);
    let l = original.local;
    let (w, x, y, z) = (bits.echo, bits.icanon, bits.iexten, bits.isig);
    assert((l & !(w | x | y | z)) & w == 0 && (l & !(w | x | y | z)) & x == 0 && (l & !(w | x | y
        | z)) & y == 0 && (l & !(w | x | y | z)) & z == 0) by (bit_vector);
}

/// Raw mode of raw mode is raw mode: switching twice changes nothing more.
pub proof fn lemma_raw_modes_twice(original: TerminalModes, bits: ModeBits)
    ensures
        spec_raw_modes(spec_raw_modes(original, bits), bits) == spec_raw_modes(original, bits),
{
    let i = original.input;
    let m = bits.brkint | bits.icrnl | bits.inpck | bits.istrip | bits.ixon;
    assert((i & !m) & !m == i & !m) by (bit_vector);
    let o = original.output;
    let p = bits.opost;
    assert((o & !p) & !p == o & !p) by (bit_vector);
    let k = original.control;
    let s = bits.cs8;
    assert((k | s) | s == k | s) by (bit_vector);
    let l = original.local;
    let n = bits.echo | bits.icanon | bits.iexten | bits.isig;
    assert((l & !n) & !n == l & !n) by (bit_vector);
}

} // verus!

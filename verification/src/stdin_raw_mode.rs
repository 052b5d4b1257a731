//! The terminal's attributes, and the raw mode that the viewer reads keys in.

use vstd::prelude::*;

verus! {

/// Why the terminal cannot be used.
#[derive(Clone, Copy, Debug, PartialEq, Eq, Structural)]
pub enum TerminalError {
    /// The size of the window is not known: the output is no terminal.
    NoWindowSize,
    /// The attributes of the input could not be read: it is no terminal, or
    /// the program may not ask.
    NoAttributes,
}

/// The attributes of a terminal as far as raw mode reads or changes them:
/// the four flag words, and of the control characters the two that say when
/// a read returns.
#[derive(Clone, Copy, Debug, PartialEq, Eq, Structural)]
pub struct TerminalAttributes {
    /// How the terminal treats what comes in.
    pub input_flags: u64,
    /// How the terminal treats what goes out.
    pub output_flags: u64,
    /// How the line is driven.
    pub control_flags: u64,
    /// Echo, line editing and signals.
    pub local_flags: u64,
    /// The number of bytes that a read waits for.
    pub min_bytes: u8,
    /// The time, in tenths of a second, after which a read gives up.
    pub timeout: u8,
}

/// The bits of the flag words that raw mode changes, each as the platform
/// numbers it.
#[derive(Clone, Copy, Debug, PartialEq, Eq, Structural)]
pub struct FlagBits {
    /// Input: a break condition raises a signal.
    pub brkint: u64,
    /// Input: Ctrl-S and Ctrl-Q stop and resume the output.
    pub ixon: u64,
    /// Input: parity is checked.
    pub inpck: u64,
    /// Input: the eighth bit of each byte is stripped.
    pub istrip: u64,
    /// Input: a carriage return is turned into a line feed.
    pub icrnl: u64,
    /// Output: the terminal rewrites what is written.
    pub opost: u64,
    /// Control: a character has eight bits.
    pub cs8: u64,
    /// Local: the terminal echoes what is typed.
    pub echo: u64,
    /// Local: the input is handed on line by line.
    pub icanon: u64,
    /// Local: Ctrl-C and Ctrl-Z raise signals.
    pub isig: u64,
    /// Local: Ctrl-V and its like are treated specially.
    pub iexten: u64,
}

/// The input flags that raw mode switches off.
pub open spec fn input_mask(bits: FlagBits) -> u64 {
    bits.brkint | bits.ixon | bits.inpck | bits.istrip | bits.icrnl
}

/// The local flags that raw mode switches off.
pub open spec fn local_mask(bits: FlagBits) -> u64 {
    bits.echo | bits.icanon | bits.isig | bits.iexten
}

/// The number of bytes that a read waits for: one where reads block, none
/// where a read returns after its time whether a byte came or not.
pub open spec fn min_bytes_of(blocking: bool) -> u8 {
    if blocking {
        1
    } else {
        0
    }
}

/// The time of a read, in tenths of a second: none where reads block, one
/// tenth where they do not.
pub open spec fn timeout_of(blocking: bool) -> u8 {
    if blocking {
        0
    } else {
        1
    }
}

/// The attributes of raw mode, made from the attributes the terminal has:
/// no echo, no line editing, no signals from the keyboard, nothing rewritten
/// on the way in or out, eight bits to a character, and reads that block or
/// time out as `blocking` says. All other bits stay as they are.
pub open spec fn raw_of(
    attributes: TerminalAttributes,
    bits: FlagBits,
    blocking: bool,
) -> TerminalAttributes {
    TerminalAttributes {
        input_flags: attributes.input_flags & !input_mask(bits),
        output_flags: attributes.output_flags & !bits.opost,
        control_flags: attributes.control_flags | bits.cs8,
        local_flags: attributes.local_flags & !local_mask(bits),
        min_bytes: min_bytes_of(blocking),
        timeout: timeout_of(blocking),
    }
}

/// The attributes of raw mode for a terminal with the given attributes.
pub fn raw_attributes(
    attributes: TerminalAttributes,
    bits: FlagBits,
    blocking: bool,
) -> (raw: TerminalAttributes)
    ensures
        raw == raw_of(attributes, bits, blocking),
{
    let input_off = bits.brkint | bits.ixon | bits.inpck | bits.istrip | bits.icrnl;
    let local_off = bits.echo | bits.icanon | bits.isig | bits.iexten;
    TerminalAttributes {
        input_flags: attributes.input_flags & !input_off,
        output_flags: attributes.output_flags & !bits.opost,
        control_flags: attributes.control_flags | bits.cs8,
        local_flags: attributes.local_flags & !local_off,
        min_bytes: if blocking {
            1
        } else {
            0
        },
        timeout: if blocking {
            0
        } else {
            1
        },
    }
}

/// Clearing the bits of a mask leaves none of them set and no other changed;
/// setting them leaves all of them set and no other changed; and doing
/// either twice is doing it once.
proof fn lemma_mask_bits(word: u64, mask: u64)
    ensures
        (word & !mask) & mask == 0,
        (word & !mask) & !mask == word & !mask,
        (word & !mask) | mask == word | mask,
        (word | mask) & mask == mask,
        (word | mask) | mask == word | mask,
        (word | mask) & !mask == word & !mask,
{
    assert((word & !mask) & mask == 0) by (bit_vector);
    assert((word & !mask) & !mask == word & !mask) by (bit_vector);
    assert((word & !mask) | mask == word | mask) by (bit_vector);
    assert((word | mask) & mask == mask) by (bit_vector);
    assert((word | mask) | mask == word | mask) by (bit_vector);
    assert((word | mask) & !mask == word & !mask) by (bit_vector);
}

/// A flag that is part of a mask is off once the mask is cleared.
proof fn lemma_flag_of_mask_off(word: u64, mask: u64, flag: u64)
    requires
        flag & !mask == 0,
    ensures
        (word & !mask) & flag == 0,
{
    assert(flag & !mask == 0 ==> (word & !mask) & flag == 0) by (bit_vector);
}

/// In raw mode each flag that raw mode switches off is off, the eight bit
/// flag is on, and every other bit of the four words is as it was.
pub proof fn lemma_raw_mode_flags(attributes: TerminalAttributes, bits: FlagBits, blocking: bool)
    ensures
        ({
            let raw = raw_of(attributes, bits, blocking);
            &&& raw.input_flags & bits.brkint == 0
            &&& raw.input_flags & bits.ixon == 0
            &&& raw.input_flags & bits.inpck == 0
            &&& raw.input_flags & bits.istrip == 0
            &&& raw.input_flags & bits.icrnl == 0
            &&& raw.output_flags & bits.opost == 0
            &&& raw.control_flags & bits.cs8 == bits.cs8
            &&& raw.local_flags & bits.echo == 0
            &&& raw.local_flags & bits.icanon == 0
            &&& raw.local_flags & bits.isig == 0
            &&& raw.local_flags & bits.iexten == 0
            &&& raw.input_flags & !input_mask(bits) == attributes.input_flags & !input_mask(bits)
            &&& raw.output_flags & !bits.opost == attributes.output_flags & !bits.opost
            &&& raw.control_flags & !bits.cs8 == attributes.control_flags & !bits.cs8
            &&& raw.local_flags & !local_mask(bits) == attributes.local_flags & !local_mask(bits)
        }),
{
    let a = bits.brkint;
    let b = bits.ixon;
    let c = bits.inpck;
    let d = bits.istrip;
    let e = bits.icrnl;
    assert(a & !(a | b | c | d | e) == 0 && b & !(a | b | c | d | e) == 0 && c & !(a | b | c | d
        | e) == 0 && d & !(a | b | c | d | e) == 0 && e & !(a | b | c | d | e) == 0)
        by (bit_vector);
    lemma_flag_of_mask_off(attributes.input_flags, input_mask(bits), a);
    lemma_flag_of_mask_off(attributes.input_flags, input_mask(bits), b);
    lemma_flag_of_mask_off(attributes.input_flags, input_mask(bits), c);
    lemma_flag_of_mask_off(attributes.input_flags, input_mask(bits), d);
    lemma_flag_of_mask_off(attributes.input_flags, input_mask(bits), e);
    let p = bits.echo;
    let q = bits.icanon;
    let r = bits.isig;
    let s = bits.iexten;
    assert(p & !(p | q | r | s) == 0 && q & !(p | q | r | s) == 0 && r & !(p | q | r | s) == 0 && s
        & !(p | q | r | s) == 0) by (bit_vector);
    lemma_flag_of_mask_off(attributes.local_flags, local_mask(bits), p);
    lemma_flag_of_mask_off(attributes.local_flags, local_mask(bits), q);
    lemma_flag_of_mask_off(attributes.local_flags, local_mask(bits), r);
    lemma_flag_of_mask_off(attributes.local_flags, local_mask(bits), s);
    lemma_mask_bits(attributes.input_flags, input_mask(bits));
    lemma_mask_bits(attributes.output_flags, bits.opost);
    lemma_mask_bits(attributes.control_flags, bits.cs8);
    lemma_mask_bits(attributes.local_flags, local_mask(bits));
}

/// Raw mode made from raw mode is the same raw mode: entering it twice does
/// no more than entering it once.
pub proof fn lemma_raw_mode_idempotent(attributes: TerminalAttributes, bits: FlagBits, blocking: bool)
    ensures
        raw_of(raw_of(attributes, bits, blocking), bits, blocking) == raw_of(
            attributes,
            bits,
            blocking,
        ),
{
    lemma_mask_bits(attributes.input_flags, input_mask(bits));
    lemma_mask_bits(attributes.output_flags, bits.opost);
    lemma_mask_bits(attributes.control_flags, bits.cs8);
    lemma_mask_bits(attributes.local_flags, local_mask(bits));
}

/// The raw mode of the terminal: the attributes that the terminal had when
/// raw mode was asked for, which are the ones to restore, and what raw mode
/// is made of.
#[derive(Clone, Copy, Debug)]
pub struct StdinRawMode {
    orig_termios: TerminalAttributes,
    bits: FlagBits,
    blocking: bool,
}

impl StdinRawMode {
    /// The attributes that the terminal had before raw mode.
    pub closed spec fn saved(&self) -> TerminalAttributes {
        self.orig_termios
    }

    /// The platform's numbers for the flags that raw mode changes.
    pub closed spec fn flag_bits(&self) -> FlagBits {
        self.bits
    }

    /// Whether a read waits for a byte.
    pub closed spec fn blocking(&self) -> bool {
        self.blocking
    }

    /// The attributes that the terminal has in raw mode.
    pub open spec fn raw(&self) -> TerminalAttributes {
        raw_of(self.saved(), self.flag_bits(), self.blocking())
    }

    /// Raw mode for a terminal whose attributes were asked for: `queried`
    /// holds them, or nothing where they could not be read. The flags are
    /// numbered as this platform numbers them.
    pub fn new(
        queried: Option<TerminalAttributes>,
        blocking: bool,
    ) -> (made: Result<StdinRawMode, TerminalError>)
        ensures
            match queried {
                Some(attributes) => made matches Ok(mode) && mode.saved() == attributes
                    && mode.blocking() == blocking,
                None => made matches Err(error) && error == TerminalError::NoAttributes,
            },
    {
        match queried {
            Some(attributes) => Ok(
                StdinRawMode::with_bits(attributes, platform_flag_bits(), blocking),
            ),
            None => Err(TerminalError::NoAttributes),
        }
    }

    /// Raw mode for a terminal with the given attributes, where the flags
    /// have the given numbers.
    pub fn with_bits(
        attributes: TerminalAttributes,
        bits: FlagBits,
        blocking: bool,
    ) -> (mode: StdinRawMode)
        ensures
            mode.saved() == attributes,
            mode.flag_bits() == bits,
            mode.blocking() == blocking,
    {
        StdinRawMode { orig_termios: attributes, bits, blocking }
    }

    /// The attributes to give the terminal when raw mode begins.
    pub fn enable_raw_mode(&self) -> (raw: TerminalAttributes)
        ensures
            raw == self.raw(),
    {
        raw_attributes(self.orig_termios, self.bits, self.blocking)
    }

    /// The attributes to give the terminal when raw mode ends: the ones it
    /// had before.
    pub fn restore(&self) -> (attributes: TerminalAttributes)
        ensures
            attributes == self.saved(),
    {
        self.orig_termios
    }

    /// The platform's numbers for the flags that raw mode changes.
    pub fn get_flag_bits(&self) -> (bits: FlagBits)
        ensures
            bits == self.flag_bits(),
    {
        self.bits
    }

    /// Whether a read waits for a byte.
    pub fn is_blocking(&self) -> (blocking: bool)
        ensures
            blocking == self.blocking(),
    {
        self.blocking
    }
}

/// The numbers that the `termios` crate gives, on the platform the program
/// is built for, to the flags that raw mode changes: its constants `BRKINT`,
/// `IXON`, `INPCK`, `ISTRIP`, `ICRNL`, `OPOST`, `CS8`, `ECHO`, `ICANON`,
/// `ISIG` and `IEXTEN`, each widened to 64 bits. Nothing is claimed of the
/// numbers: they differ from platform to platform.
#[verifier::external_body]
fn platform_flag_bits() -> (bits: FlagBits) {
    FlagBits {
        brkint: termios::BRKINT as u64,
        ixon: termios::IXON as u64,
        inpck: termios::INPCK as u64,
        istrip: termios::ISTRIP as u64,
        icrnl: termios::ICRNL as u64,
        opost: termios::OPOST as u64,
        cs8: termios::CS8 as u64,
        echo: termios::ECHO as u64,
        icanon: termios::ICANON as u64,
        isig: termios::ISIG as u64,
        iexten: termios::IEXTEN as u64,
    }
}

} // verus!

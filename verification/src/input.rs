//! Keys, and how the raw bytes of the terminal are decoded into them.
//!
//! One call of the decoder makes up to three reads and yields one key. It
//! keeps nothing for the next call: where a read times out in the middle of
//! an arrow key's sequence, the rest of the sequence is decoded by the next
//! call as keys of their own. A terminal that sends the escape byte and is
//! then late with the `[` is so taken for the escape key and a `[`.

use crate::stdin_raw_mode::StdinRawMode;
use vstd::prelude::*;

verus! {

/// What one call of the decoder yields.
#[derive(Clone, Copy, Debug, PartialEq, Eq, Structural)]
pub enum Key {
    /// No byte was there to read, or the bytes read form no known sequence.
    NoKey,
    /// The escape key pressed alone.
    Esc,
    ArrowUp,
    ArrowDown,
    ArrowLeft,
    ArrowRight,
    /// Any other byte, handed on as it came.
    Other(u8),
}

/// Where the decoder stands between two reads of one call.
#[derive(Clone, Copy, Debug, PartialEq, Eq, Structural)]
pub enum DecoderState {
    /// Nothing has been read yet.
    Normal,
    /// The escape byte has been read.
    SawEsc,
    /// The escape byte and `[` have been read.
    SawBracket,
}

/// What the decoder does after one read.
#[derive(Clone, Copy, Debug, PartialEq, Eq, Structural)]
pub enum Decoded {
    /// Another byte has to be read, in the given state.
    More(DecoderState),
    /// The call ends with this key.
    Done(Key),
}

/// The escape byte.
pub const ESCAPE: u8 = 0x1b;

/// The byte `[`, which follows the escape byte in an arrow key's sequence.
pub const BRACKET: u8 = 0x5b;

/// The key that the last byte of an arrow key's sequence stands for.
pub open spec fn arrow_of(byte: u8) -> Key {
    if byte == 0x41 {
        Key::ArrowUp
    } else if byte == 0x42 {
        Key::ArrowDown
    } else if byte == 0x43 {
        Key::ArrowRight
    } else if byte == 0x44 {
        Key::ArrowLeft
    } else {
        Key::NoKey
    }
}

/// One transition of the decoder: `read` is the byte that the read gave, or
/// `None` where it gave no byte before its time ran out.
pub open spec fn decode_read(state: DecoderState, read: Option<u8>) -> Decoded {
    match state {
        DecoderState::Normal => match read {
            None => Decoded::Done(Key::NoKey),
            Some(byte) => if byte == ESCAPE {
                Decoded::More(DecoderState::SawEsc)
            } else {
                Decoded::Done(Key::Other(byte))
            },
        },
        DecoderState::SawEsc => match read {
            None => Decoded::Done(Key::Esc),
            Some(byte) => if byte == BRACKET {
                Decoded::More(DecoderState::SawBracket)
            } else {
                Decoded::Done(Key::NoKey)
            },
        },
        DecoderState::SawBracket => match read {
            None => Decoded::Done(Key::NoKey),
            Some(byte) => Decoded::Done(arrow_of(byte)),
        },
    }
}

/// The `index`-th read of a call: past the end of what was recorded, a read
/// that gave no byte.
pub open spec fn read_at(reads: Seq<Option<u8>>, index: int) -> Option<u8> {
    if 0 <= index < reads.len() {
        reads[index]
    } else {
        None
    }
}

/// The key that a call yields when its reads give `reads`, in this order.
pub open spec fn key_of_reads(reads: Seq<Option<u8>>) -> Key {
    match read_at(reads, 0) {
        None => Key::NoKey,
        Some(first) => if first != ESCAPE {
            Key::Other(first)
        } else {
            match read_at(reads, 1) {
                None => Key::Esc,
                Some(second) => if second != BRACKET {
                    Key::NoKey
                } else {
                    match read_at(reads, 2) {
                        None => Key::NoKey,
                        Some(third) => arrow_of(third),
                    }
                },
            }
        },
    }
}

/// The number of reads that a call makes when its reads give `reads`.
pub open spec fn reads_made(reads: Seq<Option<u8>>) -> nat {
    match read_at(reads, 0) {
        None => 1,
        Some(first) => if first != ESCAPE {
            1
        } else {
            match read_at(reads, 1) {
                None => 2,
                Some(second) => if second != BRACKET {
                    2
                } else {
                    3
                },
            }
        },
    }
}

/// The decoder after one read: the next state, or the key that ends the call.
pub fn decode_step(state: DecoderState, read: Option<u8>) -> (step: Decoded)
    ensures
        step == decode_read(state, read),
{
    match state {
        DecoderState::Normal => read_first(read),
        DecoderState::SawEsc => read_escape(read),
        DecoderState::SawBracket => Decoded::Done(read_arrow(read)),
    }
}

/// What the first read of a call decides: no byte is no key, the escape
/// byte opens a sequence, any other byte is a key by itself.
pub fn read_first(read: Option<u8>) -> (step: Decoded)
    ensures
        step == decode_read(DecoderState::Normal, read),
{
    match read {
        Some(c) => if c == ESCAPE {
            Decoded::More(DecoderState::SawEsc)
        } else {
            Decoded::Done(Key::Other(c))
        },
        None => Decoded::Done(Key::NoKey),
    }
}

/// What the read after the escape byte decides: no byte in time means that
/// the escape key was pressed alone, `[` goes on with the sequence, and any
/// other byte ends a sequence that names no key.
pub fn read_escape(read: Option<u8>) -> (step: Decoded)
    ensures
        step == decode_read(DecoderState::SawEsc, read),
{
    match read {
        Some(c) => if c == BRACKET {
            Decoded::More(DecoderState::SawBracket)
        } else {
            Decoded::Done(Key::NoKey)
        },
        None => Decoded::Done(Key::Esc),
    }
}

/// What the read after escape and `[` decides: `A`, `B`, `C` and `D` name
/// the four arrow keys, anything else names no key.
pub fn read_arrow(read: Option<u8>) -> (key: Key)
    ensures
        Decoded::Done(key) == decode_read(DecoderState::SawBracket, read),
{
    match read {
        Some(c) => if c == 0x41 {
            Key::ArrowUp
        } else if c == 0x42 {
            Key::ArrowDown
        } else if c == 0x43 {
            Key::ArrowRight
        } else if c == 0x44 {
            Key::ArrowLeft
        } else {
            Key::NoKey
        },
        None => Key::NoKey,
    }
}

/// The decoder runs from `Normal` to a key in at most three reads, and the
/// key is the one that `key_of_reads` names.
pub proof fn lemma_three_reads_decide(reads: Seq<Option<u8>>)
    ensures
        1 <= reads_made(reads) <= 3,
        match decode_read(DecoderState::Normal, read_at(reads, 0)) {
            Decoded::Done(key) => reads_made(reads) == 1 && key == key_of_reads(reads),
            Decoded::More(second) => match decode_read(second, read_at(reads, 1)) {
                Decoded::Done(key) => reads_made(reads) == 2 && key == key_of_reads(reads),
                Decoded::More(third) => reads_made(reads) == 3 && decode_read(
                    third,
                    read_at(reads, 2),
                ) == Decoded::Done(key_of_reads(reads)),
            },
        },
{
}

/// What was read after the first `reads_made` reads plays no part in the key.
pub proof fn lemma_later_reads_ignored(reads: Seq<Option<u8>>, others: Seq<Option<u8>>)
    requires
        forall|i: int| 0 <= i < reads_made(reads) ==> read_at(reads, i) == read_at(others, i),
    ensures
        key_of_reads(others) == key_of_reads(reads),
        reads_made(others) == reads_made(reads),
{
    assert(read_at(reads, 0) == read_at(others, 0));
    if reads_made(reads) >= 2 {
        assert(read_at(reads, 1) == read_at(others, 1));
    }
    if reads_made(reads) >= 3 {
        assert(read_at(reads, 2) == read_at(others, 2));
    }
}

/// The input side of the viewer: it holds the terminal's raw mode for as long
/// as keys are read, and decodes what the reads give.
pub struct Input {
    stdin: StdinRawMode,
}

impl Input {
    /// The raw mode that this input holds.
    pub closed spec fn raw_mode(&self) -> StdinRawMode {
        self.stdin
    }

    /// An input over a terminal that was put into raw mode.
    pub fn new(stdin: StdinRawMode) -> (input: Input)
        ensures
            input.raw_mode() == stdin,
    {
        Input { stdin }
    }

    /// The raw mode that this input holds, with the attributes to restore.
    pub fn stdin(&self) -> (stdin: &StdinRawMode)
        ensures
            *stdin == self.raw_mode(),
    {
        &self.stdin
    }

    /// The key of one call whose reads gave `reads`, in this order; a read
    /// past the end of `reads` counts as one that gave no byte.
    pub fn read_key(&self, reads: &[Option<u8>]) -> (key: Key)
        ensures
            key == key_of_reads(reads@),
    {
        match read_first(self.read_byte(reads, 0)) {
            Decoded::Done(key) => key,
            Decoded::More(_) => match read_escape(self.read_byte(reads, 1)) {
                Decoded::Done(key) => key,
                Decoded::More(_) => read_arrow(self.read_byte(reads, 2)),
            },
        }
    }

    /// What the read with the given index gave.
    fn read_byte(&self, reads: &[Option<u8>], index: usize) -> (read: Option<u8>)
        ensures
            read == read_at(reads@, index as int),
    {
        if index < reads.len() {
            reads[index]
        } else {
            None
        }
    }
}

} // verus!

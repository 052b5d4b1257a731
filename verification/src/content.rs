//! The text that the viewer shows: an ordered list of lines.

use crate::constants::VERSION;
use vstd::prelude::*;
use vstd::string::*;

verus! {

/// The lines of the buffer. A line holds no line terminator, and a tab in it
/// is one byte like any other.
pub struct Content {
    pub lines: Vec<String>,
    pub num_rows: usize,
}

/// The bytes of a line of text.
pub open spec fn line_bytes(line: Seq<char>) -> Seq<u8> {
    vstd::utf8::encode_utf8(line)
}

/// The line at `row`; beyond the last line, and so in an empty buffer, it is
/// the empty line.
pub open spec fn line_at(buffer: Seq<Seq<u8>>, row: int) -> Seq<u8> {
    if 0 <= row < buffer.len() {
        buffer[row]
    } else {
        Seq::empty()
    }
}

/// The lines as the rest of the library reads them: each as its bytes.
pub open spec fn bytes_of_lines(lines: Seq<String>) -> Seq<Seq<u8>> {
    Seq::new(lines.len(), |i: int| line_bytes(lines[i]@))
}

impl View for Content {
    type V = Seq<Seq<u8>>;

    /// The buffer: each line as its bytes.
    open spec fn view(&self) -> Seq<Seq<u8>> {
        bytes_of_lines(self.lines@)
    }
}

impl Content {
    /// `num_rows` counts the lines.
    pub open spec fn wf(&self) -> bool {
        self.num_rows == self.lines@.len()
    }

    /// The text of the one line that a buffer holds before a file is opened.
    pub open spec fn welcome_line() -> Seq<char> {
        "Welcome to Miv editor -- version "@ + VERSION@
    }

    /// The buffer that holds the welcome line and nothing else.
    pub fn new() -> (content: Content)
        ensures
            content.wf(),
            content.lines@.len() == 1,
            content.lines@[0]@ == Self::welcome_line(),
    {
        let mut line = String::from_str("Welcome to Miv editor -- version ");
        line.append(VERSION);
        let mut lines: Vec<String> = Vec::new();
        lines.push(line);
        Content { lines, num_rows: 1 }
    }

    /// The buffer that holds the given lines.
    pub fn from_lines(lines: Vec<String>) -> (content: Content)
        ensures
            content.wf(),
            content.lines == lines,
    {
        let num_rows = lines.len();
        Content { lines, num_rows }
    }

    /// The number of lines.
    pub fn len(&self) -> (n: usize)
        ensures
            n == self@.len(),
    {
        self.lines.len()
    }

    /// The number of bytes of the line at `row`, 0 beyond the last line.
    pub fn line_len(&self, row: usize) -> (n: usize)
        ensures
            n == line_at(self@, row as int).len(),
    {
        if row < self.lines.len() {
            self.lines[row].as_str().as_bytes().len()
        } else {
            0
        }
    }

    /// The bytes of the line at `row`, none beyond the last line.
    pub fn line(&self, row: usize) -> (bytes: &[u8])
        ensures
            bytes@ == line_at(self@, row as int),
    {
        if row < self.lines.len() {
            self.lines[row].as_str().as_bytes()
        } else {
            let empty: &[u8] = &[];
            empty
        }
    }
}

} // verus!

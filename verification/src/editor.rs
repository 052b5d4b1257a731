//! The controller: it owns the buffer, the screen and the input, keeps the
//! cursor and the scroll offsets, and says what each key does.

use crate::constants::ctrl_key;
use crate::content::{bytes_of_lines, line_at, Content};
use crate::input::{Input, Key};
use crate::screen::{clear_frame_of, frame_of, placement_of, Screen};
use crate::stdin_raw_mode::TerminalError;
use crate::viewport::{
    after_key, framed, held_to_line, lemma_key_keeps_framed, lemma_origin_framed,
    lemma_shown_framed, moved, origin, scroll_into_view, shown, Direction, Placement,
};
use vstd::prelude::*;
use vstd::string::*;

verus! {

/// What the loop that reads the keys has to do after a key.
#[derive(Clone, Copy, Debug, PartialEq, Eq, Structural)]
pub enum EditorAction {
    /// Nothing: no key was read, the screen stays as it is.
    Idle,
    /// Write the frame that the editor has built.
    Redraw,
    /// Leave the loop.
    Quit,
}

/// What a key asks of the loop: no key asks for nothing, Ctrl-Q and Ctrl-C
/// end the viewer, every other key has the screen drawn anew.
pub open spec fn action_of(key: Key) -> EditorAction {
    match key {
        Key::NoKey => EditorAction::Idle,
        Key::Other(byte) => if byte == 0x11 || byte == 0x03 {
            EditorAction::Quit
        } else {
            EditorAction::Redraw
        },
        _ => EditorAction::Redraw,
    }
}

/// The offset of a window of `extent` cells after it has followed `position`.
fn scrolled(position: usize, offset: usize, extent: usize) -> (scrolled: usize)
    ensures
        scrolled == scroll_into_view(position as nat, offset as nat, extent as nat),
{
    if position < offset {
        position
    } else if extent >= 1 && position - offset >= extent {
        position - extent + 1
    } else {
        offset
    }
}

/// The column offset and the column after the column has been held to a line
/// of `line_length` bytes.
fn hold_to_line(line_length: usize, cursor_x: usize, column_offset: usize) -> (held: (usize, usize))
    ensures
        held.0 == held_to_line(line_length as nat, cursor_x as nat, column_offset as nat).0,
        held.1 == held_to_line(line_length as nat, cursor_x as nat, column_offset as nat).1,
{
    if cursor_x > line_length {
        let new_cursor_x = line_length;
        if new_cursor_x > column_offset {
            (column_offset, new_cursor_x)
        } else {
            (new_cursor_x, new_cursor_x)
        }
    } else {
        (column_offset, cursor_x)
    }
}

/// The viewer's state between two keys.
pub struct Editor {
    screen: Screen,
    input: Input,
    content: Content,
    filename: String,
    cursor_row: usize,
    cursor_column: usize,
    row_offset: usize,
    column_offset: usize,
}

impl Editor {
    /// The cursor and the scroll offsets that the editor keeps. The kept
    /// column may lie past the end of the cursor's line.
    pub closed spec fn placement(&self) -> Placement {
        placement_of(self.cursor_row, self.cursor_column, self.row_offset, self.column_offset)
    }

    /// The lines of the buffer, each as its text.
    pub closed spec fn lines(&self) -> Seq<String> {
        self.content.lines@
    }

    /// The number of lines that the buffer says it has.
    pub closed spec fn line_count(&self) -> nat {
        self.content.num_rows as nat
    }

    /// The screen that the editor draws on, with the last frame built.
    pub closed spec fn display(&self) -> Screen {
        self.screen
    }

    /// The input that the editor's keys come from.
    pub closed spec fn keyboard(&self) -> Input {
        self.input
    }

    /// The name of the file that the buffer was read from.
    pub closed spec fn file(&self) -> Seq<char> {
        self.filename@
    }

    /// The lines of the buffer, each as its bytes.
    pub open spec fn buffer(&self) -> Seq<Seq<u8>> {
        bytes_of_lines(self.lines())
    }

    /// The cursor and the scroll offsets that the editor shows: the kept
    /// ones, with the column held to the cursor's line.
    pub open spec fn cursor(&self) -> Placement {
        shown(self.placement(), self.buffer())
    }

    /// The width of the screen.
    pub open spec fn width(&self) -> nat {
        self.display().width()
    }

    /// The height of the screen.
    pub open spec fn height(&self) -> nat {
        self.display().height()
    }

    /// What holds of an editor between any two keys: a tab takes a cell, the
    /// buffer counts its lines, the cursor's row is a line of the buffer and
    /// the window shows the cursor, as far as the screen has cells.
    pub open spec fn wf(&self) -> bool {
        &&& self.display().wf()
        &&& self.line_count() == self.lines().len()
        &&& framed(self.placement(), self.buffer(), self.width(), self.height())
    }

    /// Everything but the cursor, the offsets and the frame is as in `other`.
    pub open spec fn same_setting(&self, other: &Editor) -> bool {
        &&& self.lines() == other.lines()
        &&& self.line_count() == other.line_count()
        &&& self.file() == other.file()
        &&& self.keyboard() == other.keyboard()
        &&& self.display().same_screen(&other.display())
    }

    /// The frame that shows the editor as it is.
    pub open spec fn frame_now(&self) -> Seq<u8> {
        frame_of(self.buffer(), self.cursor(), self.width(), self.height(), self.display().tab())
    }

    /// The name of the file that an editor has before one is opened.
    pub open spec fn default_filename() -> Seq<char> {
        "logs/test-file.txt"@
    }

    /// An editor on the window that the program's output goes to, with the
    /// welcome line as its buffer and the cursor at the origin. It fails
    /// where the output is no terminal.
    pub fn new(input: Input, tab_width: usize) -> (made: Result<Editor, TerminalError>)
        requires
            tab_width >= 1,
        ensures
            match made {
                Ok(editor) => editor.wf() && editor.placement() == origin() && editor.keyboard()
                    == input && editor.display().tab() == tab_width && editor.lines().len() == 1
                    && editor.lines()[0]@ == Content::welcome_line() && editor.file()
                    == Self::default_filename(),
                Err(error) => error == TerminalError::NoWindowSize,
            },
    {
        match Screen::new(tab_width) {
            Ok(screen) => Ok(Editor::with_screen(screen, input)),
            Err(error) => Err(error),
        }
    }

    /// An editor on the given screen, with the welcome line as its buffer
    /// and the cursor at the origin.
    pub fn with_screen(screen: Screen, input: Input) -> (editor: Editor)
        requires
            screen.wf(),
        ensures
            editor.wf(),
            editor.placement() == origin(),
            editor.display() == screen,
            editor.keyboard() == input,
            editor.lines().len() == 1,
            editor.lines()[0]@ == Content::welcome_line(),
            editor.file() == Self::default_filename(),
    {
        let content = Content::new();
        proof {
            lemma_origin_framed(content@, screen.width(), screen.height());
        }
        Editor {
            screen,
            input,
            content,
            filename: String::from_str("logs/test-file.txt"),
            cursor_row: 0,
            cursor_column: 0,
            row_offset: 0,
            column_offset: 0,
        }
    }

    /// Opens the editor on a file: `loaded` holds the lines that were read
    /// from the file named `filename`, or nothing where it could not be
    /// read. The buffer becomes these lines and the first frame is built.
    pub fn editor_open_with_file(&mut self, filename: String, loaded: Option<Vec<String>>)
        requires
            old(self).display().wf(),
        ensures
            final(self).wf(),
            final(self).file() == filename@,
            final(self).lines() == (match loaded {
                Some(lines) => lines@,
                None => Seq::<String>::empty(),
            }),
            final(self).placement() == origin(),
            final(self).keyboard() == old(self).keyboard(),
            final(self).display().same_screen(&old(self).display()),
            final(self).display().frame() == final(self).frame_now(),
    {
        self.filename = filename;
        self.editor_open_file(loaded);

        self.editor_open();
    }

    /// Builds the first frame, which shows the buffer before any key.
    pub fn editor_open(&mut self)
        requires
            old(self).wf(),
        ensures
            final(self).wf(),
            final(self).same_setting(old(self)),
            final(self).placement() == old(self).placement(),
            final(self).display().frame() == final(self).frame_now(),
    {
        self.refresh();
    }

    /// What a key does: no key changes nothing; Ctrl-Q and Ctrl-C change
    /// nothing and end the loop; any other key has the frame built anew. Of
    /// these only the four arrow keys move the cursor: the escape key and
    /// every other byte leave it where it is.
    pub fn editor_process_key(&mut self, key: Key) -> (action: EditorAction)
        requires
            old(self).wf(),
        ensures
            action == action_of(key),
            final(self).wf(),
            final(self).same_setting(old(self)),
            action == EditorAction::Redraw ==> final(self).placement() == after_key(
                old(self).placement(),
                key,
                old(self).buffer(),
                old(self).width(),
                old(self).height(),
            ) && final(self).display().frame() == final(self).frame_now(),
            action != EditorAction::Redraw ==> *final(self) == *old(self),
            key is Esc || key is Other ==> final(self).placement() == old(self).placement(),
    {
        match key {
            Key::NoKey => {
                // No key was read: the screen is not drawn again.
                EditorAction::Idle
            },
            Key::Other(c) if c == ctrl_key('q') => {
                EditorAction::Quit
            },
            Key::Other(c) if c == ctrl_key('c') => {
                EditorAction::Quit
            },
            _ => {
                self.move_cursor(key);
                self.refresh();
                EditorAction::Redraw
            },
        }
    }

    /// Builds the frame that shows the editor as it is: the cursor is drawn
    /// at the kept column held to its line.
    fn refresh(&mut self)
        requires
            old(self).wf(),
        ensures
            final(self).wf(),
            final(self).same_setting(old(self)),
            final(self).placement() == old(self).placement(),
            final(self).display().frame() == final(self).frame_now(),
    {
        proof {
            lemma_shown_framed(self.placement(), self.buffer(), self.width(), self.height());
        }
        let (new_column_offset, new_cursor_x) = hold_to_line(
            self.content.line_len(self.cursor_row),
            self.cursor_column,
            self.column_offset,
        );
        self.screen.editor_refresh_screen(
            &self.content,
            self.cursor_row,
            new_cursor_x,
            self.row_offset,
            new_column_offset,
        );
    }

    /// Moves the cursor as an arrow key says, and the window after it. Any
    /// other key changes nothing.
    pub fn move_cursor(&mut self, key: Key)
        ensures
            final(self).placement() == after_key(
                old(self).placement(),
                key,
                old(self).buffer(),
                old(self).width(),
                old(self).height(),
            ),
            key is NoKey || key is Esc || key is Other ==> *final(self) == *old(self),
            final(self).same_setting(old(self)),
            final(self).display() == old(self).display(),
            old(self).wf() ==> final(self).wf(),
    {
        proof {
            if self.wf() {
                lemma_key_keeps_framed(
                    self.placement(),
                    key,
                    self.buffer(),
                    self.width(),
                    self.height(),
                );
            }
        }
        match key {
            Key::ArrowUp => self.move_cursor_up(),
            Key::ArrowDown => self.move_cursor_down(),
            Key::ArrowRight => self.move_cursor_right(),
            Key::ArrowLeft => self.move_cursor_left(),
            _ => {},
        }
    }

    /// Moves the cursor one line up, if there is one.
    fn move_cursor_up(&mut self)
        ensures
            final(self).placement() == moved(
                old(self).placement(),
                Direction::Up,
                old(self).buffer(),
                old(self).width(),
                old(self).height(),
            ),
            final(self).same_setting(old(self)),
            final(self).display() == old(self).display(),
    {
        if self.screen.get_height() == 0 {
            return ;
        }
        if self.cursor_row > 0 {
            self.cursor_row -= 1;
        }
        self.row_offset = scrolled(self.cursor_row, self.row_offset, self.screen.get_height());
    }

    /// Moves the cursor one line down, if there is one.
    fn move_cursor_down(&mut self)
        ensures
            final(self).placement() == moved(
                old(self).placement(),
                Direction::Down,
                old(self).buffer(),
                old(self).width(),
                old(self).height(),
            ),
            final(self).same_setting(old(self)),
            final(self).display() == old(self).display(),
    {
        if self.screen.get_height() == 0 {
            return ;
        }
        let lines = self.content.len();
        if lines > 0 && self.cursor_row < lines - 1 {
            self.cursor_row += 1;
        }
        self.row_offset = scrolled(self.cursor_row, self.row_offset, self.screen.get_height());
    }

    /// Moves the cursor one byte to the left, if the line has one there.
    fn move_cursor_left(&mut self)
        ensures
            final(self).placement() == moved(
                old(self).placement(),
                Direction::Left,
                old(self).buffer(),
                old(self).width(),
                old(self).height(),
            ),
            final(self).same_setting(old(self)),
            final(self).display() == old(self).display(),
    {
        if self.screen.get_width() == 0 {
            return ;
        }
        self.reset_cursor();

        if self.cursor_column > 0 {
            self.cursor_column -= 1;
        }
        self.column_offset = scrolled(
            self.cursor_column,
            self.column_offset,
            self.screen.get_width(),
        );
    }

    /// Moves the cursor one byte to the right, at most to the place behind
    /// the line's last byte.
    fn move_cursor_right(&mut self)
        ensures
            final(self).placement() == moved(
                old(self).placement(),
                Direction::Right,
                old(self).buffer(),
                old(self).width(),
                old(self).height(),
            ),
            final(self).same_setting(old(self)),
            final(self).display() == old(self).display(),
    {
        if self.screen.get_width() == 0 {
            return ;
        }
        self.reset_cursor();

        if self.cursor_column < self.content.line_len(self.cursor_row) {
            self.cursor_column += 1;
        }
        self.column_offset = scrolled(
            self.cursor_column,
            self.column_offset,
            self.screen.get_width(),
        );
    }

    /// Makes the shown placement the kept one: a column past the line's end
    /// goes to the end, and the column offset with it if it lay beyond.
    fn reset_cursor(&mut self)
        ensures
            final(self).placement() == old(self).cursor(),
            final(self).same_setting(old(self)),
            final(self).display() == old(self).display(),
    {
        let (new_column_offset, new_cursor_x) = hold_to_line(
            self.content.line_len(self.cursor_row),
            self.cursor_column,
            self.column_offset,
        );
        self.column_offset = new_column_offset;
        self.cursor_column = new_cursor_x;
    }

    /// The column offset and the column that hold a cursor at `cursor_x` to
    /// `content_line`: they come back unchanged where the cursor is on the
    /// line or just behind its end; a cursor further right goes to the end,
    /// and the offset goes there too unless it lies before it.
    pub fn get_horizontal_cursor_position(
        &self,
        content_line: &str,
        cursor_x: usize,
        column_offset: usize,
    ) -> (held: (usize, usize))
        ensures
            held.0 == held_to_line(
                content_line.spec_bytes().len(),
                cursor_x as nat,
                column_offset as nat,
            ).0,
            held.1 == held_to_line(
                content_line.spec_bytes().len(),
                cursor_x as nat,
                column_offset as nat,
            ).1,
    {
        hold_to_line(content_line.as_bytes().len(), cursor_x, column_offset)
    }

    /// Replaces the buffer by the lines read from the file: `loaded` holds
    /// them, or nothing where the file could not be read, which leaves the
    /// buffer empty. The cursor goes back to the origin.
    pub fn editor_open_file(&mut self, loaded: Option<Vec<String>>)
        requires
            old(self).display().wf(),
        ensures
            final(self).wf(),
            final(self).lines() == (match loaded {
                Some(lines) => lines@,
                None => Seq::<String>::empty(),
            }),
            final(self).placement() == origin(),
            final(self).file() == old(self).file(),
            final(self).keyboard() == old(self).keyboard(),
            final(self).display() == old(self).display(),
    {
        self.content.lines.clear();
        match loaded {
            Some(lines) => {
                self.content = Content::from_lines(lines);
            },
            None => {
                self.content.num_rows = 0;
            },
        }
        self.cursor_row = 0;
        self.cursor_column = 0;
        self.row_offset = 0;
        self.column_offset = 0;
        proof {
            lemma_origin_framed(self.buffer(), self.width(), self.height());
        }
    }

    /// Whether the editor is well formed.
    pub fn is_framed(&self) -> (framed: bool)
        ensures
            framed == self.wf(),
    {
        let lines = self.content.len();
        let width = self.screen.get_width();
        let height = self.screen.get_height();
        self.screen.get_tab_width() >= 1 && self.content.num_rows == lines && (self.cursor_row
            < lines || self.cursor_row == 0) && self.row_offset <= self.cursor_row
            && self.column_offset <= self.cursor_column && (height == 0 || self.cursor_row
            - self.row_offset < height) && (width == 0 || self.cursor_column - self.column_offset
            < width)
    }

    /// The line of the buffer that the cursor is on, counted from 0.
    pub fn cursor_row(&self) -> (row: usize)
        ensures
            row == self.cursor().row,
    {
        self.cursor_row
    }

    /// The byte of its line that the cursor is shown on, counted from 0; the
    /// line's length where the cursor is shown behind the last byte.
    pub fn cursor_column(&self) -> (column: usize)
        ensures
            column == self.cursor().column,
            column <= line_at(self.buffer(), self.cursor().row as int).len(),
    {
        let held = hold_to_line(
            self.content.line_len(self.cursor_row),
            self.cursor_column,
            self.column_offset,
        );
        held.1
    }

    /// The column that the editor keeps for the cursor: the one that Left
    /// and Right last moved it to.
    pub fn kept_column(&self) -> (column: usize)
        ensures
            column == self.placement().column,
    {
        self.cursor_column
    }

    /// The line of the buffer that the screen's first row shows.
    pub fn row_offset(&self) -> (offset: usize)
        ensures
            offset == self.cursor().row_offset,
    {
        self.row_offset
    }

    /// The column of the buffer that the screen's first column shows.
    pub fn column_offset(&self) -> (offset: usize)
        ensures
            offset == self.cursor().column_offset,
    {
        let held = hold_to_line(
            self.content.line_len(self.cursor_row),
            self.cursor_column,
            self.column_offset,
        );
        held.0
    }

    /// The column offset that the editor keeps.
    pub fn kept_column_offset(&self) -> (offset: usize)
        ensures
            offset == self.placement().column_offset,
    {
        self.column_offset
    }

    /// The part of the buffer that the screen shows: the row offset, the
    /// column offset, the width and the height.
    pub fn visible_region(&self) -> (region: (usize, usize, usize, usize))
        ensures
            region.0 == self.cursor().row_offset,
            region.1 == self.cursor().column_offset,
            region.2 == self.width(),
            region.3 == self.height(),
    {
        (self.row_offset, self.column_offset(), self.screen.get_width(), self.screen.get_height())
    }

    /// The screen, with the frame that was built last.
    pub fn screen(&self) -> (screen: &Screen)
        ensures
            *screen == self.display(),
    {
        &self.screen
    }

    /// The input.
    pub fn input(&self) -> (input: &Input)
        ensures
            *input == self.keyboard(),
    {
        &self.input
    }

    /// The buffer.
    pub fn content(&self) -> (content: &Content)
        ensures
            content.lines@ == self.lines(),
            content.num_rows == self.line_count(),
            content@ == self.buffer(),
    {
        &self.content
    }

    /// The name of the file that the buffer was read from.
    pub fn filename(&self) -> (filename: &String)
        ensures
            filename@ == self.file(),
    {
        &self.filename
    }

    /// Builds the frame that leaves the terminal clean when the viewer ends.
    pub fn editor_close(&mut self)
        ensures
            final(self).display().frame() == clear_frame_of(),
            final(self).same_setting(old(self)),
            final(self).placement() == old(self).placement(),
    {
        self.screen.clear_frame();
    }
}

} // verus!

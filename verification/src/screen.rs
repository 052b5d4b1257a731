//! The renderer: it turns the buffer and a placement into one frame, the
//! bytes that redraw the whole terminal.

use crate::constants::VERSION;
use crate::content::{line_at, Content};
use crate::stdin_raw_mode::TerminalError;
use crate::viewport::Placement;
use vstd::prelude::*;
use vstd::string::*;

verus! {

/// `ESC [ ? 2 5 l`: the terminal hides its cursor.
pub open spec fn hide_cursor_code() -> Seq<u8> {
    seq![0x1bu8, 0x5bu8, 0x3fu8, 0x32u8, 0x35u8, 0x6cu8]
}

/// `ESC [ ? 2 5 h`: the terminal shows its cursor.
pub open spec fn show_cursor_code() -> Seq<u8> {
    seq![0x1bu8, 0x5bu8, 0x3fu8, 0x32u8, 0x35u8, 0x68u8]
}

/// `ESC [ H`: the terminal's cursor goes to the top left cell.
pub open spec fn home_code() -> Seq<u8> {
    seq![0x1bu8, 0x5bu8, 0x48u8]
}

/// `ESC [ K`: the terminal clears the rest of the row.
pub open spec fn clear_line_code() -> Seq<u8> {
    seq![0x1bu8, 0x5bu8, 0x4bu8]
}

/// `ESC [ 2 J`: the terminal clears all its cells.
pub open spec fn clear_screen_code() -> Seq<u8> {
    seq![0x1bu8, 0x5bu8, 0x32u8, 0x4au8]
}

/// Carriage return and line feed, which stand between two rows.
pub open spec fn line_break() -> Seq<u8> {
    seq![0x0du8, 0x0au8]
}

/// The digits of `n` in base ten, without leading zeros.
pub open spec fn decimal(n: nat) -> Seq<u8>
    decreases n,
{
    if n < 10 {
        seq![(0x30 + n) as u8]
    } else {
        decimal(n / 10).push((0x30 + n % 10) as u8)
    }
}

/// `ESC [ row ; column H`: the terminal's cursor goes to the cell with these
/// numbers, which count from 1.
pub open spec fn cursor_code(row: nat, column: nat) -> Seq<u8> {
    seq![0x1bu8, 0x5bu8] + decimal(row) + seq![0x3bu8] + decimal(column) + seq![0x48u8]
}

/// The cells that one byte of a line takes: a tab becomes `tab_width` spaces,
/// any other byte stands for itself.
pub open spec fn cells_of(byte: u8, tab_width: nat) -> Seq<u8> {
    if byte == 0x09 {
        Seq::new(tab_width, |i: int| 0x20u8)
    } else {
        seq![byte]
    }
}

/// The bytes with each tab replaced by `tab_width` spaces.
pub open spec fn expand_tabs(bytes: Seq<u8>, tab_width: nat) -> Seq<u8>
    decreases bytes.len(),
{
    if bytes.len() == 0 {
        Seq::empty()
    } else {
        expand_tabs(bytes.drop_last(), tab_width) + cells_of(bytes.last(), tab_width)
    }
}

/// The first column of the line that the window does not show: the line's
/// end, or the window's, whichever comes first.
pub open spec fn visible_end(line: Seq<u8>, column_offset: nat, width: nat) -> nat {
    if line.len() <= column_offset + width {
        line.len()
    } else {
        column_offset + width
    }
}

/// The part of the line that a window of `width` columns shows from
/// `column_offset` on, counted in bytes of the line.
pub open spec fn visible_part(line: Seq<u8>, column_offset: nat, width: nat) -> Seq<u8> {
    if column_offset < visible_end(line, column_offset, width) {
        line.subrange(column_offset as int, visible_end(line, column_offset, width) as int)
    } else {
        Seq::empty()
    }
}

/// The text on the first row of a screen that shows an empty buffer.
pub open spec fn welcome_banner() -> Seq<u8> {
    "Kilo editor -- version ".spec_bytes() + VERSION.spec_bytes()
}

/// What the rows of a frame are drawn for: the part of the buffer that the
/// screen shows, and the width of a tab.
pub struct Window {
    /// The line of the buffer that the first row shows.
    pub row_offset: nat,
    /// The column of the buffer that the first column shows.
    pub column_offset: nat,
    /// The number of columns of the screen.
    pub width: nat,
    /// The number of rows of the screen.
    pub height: nat,
    /// The number of cells that a tab takes.
    pub tab_width: nat,
}

/// The number of rows, from the top, that show a line of the buffer.
pub open spec fn text_rows(buffer: Seq<Seq<u8>>, window: Window) -> nat {
    if window.row_offset >= buffer.len() {
        0
    } else if buffer.len() - window.row_offset <= window.height {
        (buffer.len() - window.row_offset) as nat
    } else {
        window.height
    }
}

/// What row `y` of the screen shows: the visible part of its line, with the
/// tabs expanded; on the first row of an empty buffer the welcome banner;
/// below the last line a tilde.
pub open spec fn row_text(buffer: Seq<Seq<u8>>, y: nat, window: Window) -> Seq<u8> {
    if window.row_offset + y < buffer.len() {
        expand_tabs(
            visible_part(
                buffer[(window.row_offset + y) as int],
                window.column_offset,
                window.width,
            ),
            window.tab_width,
        )
    } else if buffer.len() == 0 && y == 0 {
        welcome_banner()
    } else {
        seq![0x7eu8]
    }
}

/// What follows the text of row `y`: the code that clears the rest of the
/// row, and a line break unless the row is the screen's last.
pub open spec fn row_end(y: nat, height: nat) -> Seq<u8> {
    if y + 1 < height {
        clear_line_code() + line_break()
    } else {
        clear_line_code()
    }
}

/// The rows `from` to `to - 1` of the screen, each with its end.
pub open spec fn rows(buffer: Seq<Seq<u8>>, from: nat, to: nat, window: Window) -> Seq<u8>
    decreases to,
{
    if to <= from {
        Seq::empty()
    } else {
        rows(buffer, from, (to - 1) as nat, window) + row_text(buffer, (to - 1) as nat, window)
            + row_end((to - 1) as nat, window.height)
    }
}

/// The rows `from` to `to - 1` of a screen of `height` rows where each of
/// them shows a tilde.
pub open spec fn filler_rows(from: nat, to: nat, height: nat) -> Seq<u8>
    decreases to,
{
    if to <= from {
        Seq::empty()
    } else {
        filler_rows(from, (to - 1) as nat, height) + seq![0x7eu8] + row_end((to - 1) as nat, height)
    }
}

/// The rows of a screen of `height` rows that shows an empty buffer: the
/// welcome banner on the first row, a tilde on each row below.
pub open spec fn welcome_rows(height: nat) -> Seq<u8> {
    if height == 0 {
        Seq::empty()
    } else {
        welcome_banner() + row_end(0, height) + filler_rows(1, height, height)
    }
}

/// The number of tabs among the bytes.
pub open spec fn count_tabs(bytes: Seq<u8>) -> nat
    decreases bytes.len(),
{
    if bytes.len() == 0 {
        0
    } else {
        count_tabs(bytes.drop_last()) + if bytes.last() == 0x09 {
            1nat
        } else {
            0nat
        }
    }
}

/// The number of tabs of the line at or before `column`.
pub open spec fn tabs_at_or_before(line: Seq<u8>, column: nat) -> nat {
    if column + 1 <= line.len() {
        count_tabs(line.take((column + 1) as int))
    } else {
        count_tabs(line)
    }
}

/// The row of the screen, counted from 0, on which the cursor is drawn.
pub open spec fn screen_row(at: Placement) -> nat {
    (at.row - at.row_offset) as nat
}

/// The column of the screen, counted from 0, on which the cursor is drawn:
/// its distance from the window's first column, and for each tab at or before
/// the cursor the cells that the tab takes beyond its first.
pub open spec fn screen_column(line: Seq<u8>, at: Placement, tab_width: nat) -> nat {
    ((at.column - at.column_offset) + tabs_at_or_before(line, at.column) * (tab_width - 1)) as nat
}

/// The window of a screen of `width` by `height` cells that is scrolled as
/// the placement says.
pub open spec fn window_of(at: Placement, width: nat, height: nat, tab_width: nat) -> Window {
    Window {
        row_offset: at.row_offset,
        column_offset: at.column_offset,
        width,
        height,
        tab_width,
    }
}

/// The frame that draws the buffer on a screen of `width` by `height` cells:
/// the cursor hidden and sent home, the rows, the cursor sent to its cell
/// and shown again.
pub open spec fn frame_of(
    buffer: Seq<Seq<u8>>,
    at: Placement,
    width: nat,
    height: nat,
    tab_width: nat,
) -> Seq<u8> {
    hide_cursor_code() + home_code() + rows(
        buffer,
        0,
        height,
        window_of(at, width, height, tab_width),
    ) + cursor_code(
        screen_row(at) + 1,
        screen_column(line_at(buffer, at.row as int), at, tab_width) + 1,
    ) + show_cursor_code()
}

/// The frame that leaves the terminal clean: all cells cleared, the cursor
/// at home.
pub open spec fn clear_frame_of() -> Seq<u8> {
    clear_screen_code() + home_code()
}

/// The placement that four machine numbers name.
pub open spec fn placement_of(
    cursor_row: usize,
    cursor_column: usize,
    row_offset: usize,
    column_offset: usize,
) -> Placement {
    Placement {
        row: cursor_row as nat,
        column: cursor_column as nat,
        row_offset: row_offset as nat,
        column_offset: column_offset as nat,
    }
}

/// Taking one more byte of a line adds that byte's cells to the expansion.
proof fn lemma_expand_tabs_step(line: Seq<u8>, from: int, to: int, tab_width: nat)
    requires
        0 <= from <= to < line.len(),
    ensures
        expand_tabs(line.subrange(from, to + 1), tab_width) == expand_tabs(
            line.subrange(from, to),
            tab_width,
        ) + cells_of(line[to], tab_width),
{
    assert(line.subrange(from, to + 1).drop_last() =~= line.subrange(from, to));
}

/// Taking one more byte of a line adds it to the count if it is a tab.
proof fn lemma_count_tabs_step(line: Seq<u8>, to: int)
    requires
        0 <= to < line.len(),
    ensures
        count_tabs(line.take(to + 1)) == count_tabs(line.take(to)) + if line[to] == 0x09 {
            1nat
        } else {
            0nat
        },
        count_tabs(line.take(to)) <= to,
    decreases to,
{
    assert(line.take(to + 1).drop_last() =~= line.take(to));
    if to > 0 {
        lemma_count_tabs_step(line, to - 1);
    }
}

/// The tabs of a line are those before a column and those from it on.
proof fn lemma_count_tabs_split(line: Seq<u8>, column: int)
    requires
        0 <= column <= line.len(),
    ensures
        count_tabs(line) == count_tabs(line.take(column)) + count_tabs(
            line.subrange(column, line.len() as int),
        ),
    decreases line.len(),
{
    if column == line.len() {
        assert(line.take(column) =~= line);
        assert(line.subrange(column, line.len() as int) =~= Seq::<u8>::empty());
    } else {
        let shorter = line.drop_last();
        lemma_count_tabs_split(shorter, column);
        assert(shorter.take(column) =~= line.take(column));
        assert(line.subrange(column, line.len() as int).drop_last() =~= shorter.subrange(
            column,
            shorter.len() as int,
        ));
    }
}

/// Two runs of rows that meet make one run.
proof fn lemma_rows_join(buffer: Seq<Seq<u8>>, from: nat, middle: nat, to: nat, window: Window)
    requires
        from <= middle <= to,
    ensures
        rows(buffer, from, middle, window) + rows(buffer, middle, to, window) == rows(
            buffer,
            from,
            to,
            window,
        ),
    decreases to,
{
    let left = rows(buffer, from, middle, window);
    if to == middle {
        assert(left + Seq::<u8>::empty() =~= left);
    } else {
        lemma_rows_join(buffer, from, middle, (to - 1) as nat, window);
        let inner = rows(buffer, middle, (to - 1) as nat, window);
        let text = row_text(buffer, (to - 1) as nat, window);
        let end = row_end((to - 1) as nat, window.height);
        assert(left + (inner + text + end) =~= (left + inner) + text + end);
    }
}

/// The rows below the last line of the buffer show a tilde each.
proof fn lemma_rows_below_text(buffer: Seq<Seq<u8>>, from: nat, to: nat, window: Window)
    requires
        window.row_offset + from >= buffer.len(),
        buffer.len() > 0 || from >= 1,
    ensures
        rows(buffer, from, to, window) == filler_rows(from, to, window.height),
    decreases to,
{
    if to > from {
        lemma_rows_below_text(buffer, from, (to - 1) as nat, window);
    }
}

/// The rows of a screen that shows an empty buffer are the welcome rows.
proof fn lemma_rows_of_empty_buffer(buffer: Seq<Seq<u8>>, window: Window)
    requires
        buffer.len() == 0,
    ensures
        rows(buffer, 0, window.height, window) == welcome_rows(window.height),
{
    if window.height >= 1 {
        lemma_rows_join(buffer, 0, 1, window.height, window);
        lemma_rows_below_text(buffer, 1, window.height, window);
        assert(rows(buffer, 0, 1, window) =~= welcome_banner() + row_end(0, window.height)) by {
            reveal_with_fuel(rows, 2);
        }
    }
}

/// The expansion of a run of bytes has a cell for each byte and, for each
/// tab among them, the cells that the tab takes beyond its first.
pub proof fn lemma_expanded_length(bytes: Seq<u8>, tab_width: nat)
    requires
        tab_width >= 1,
    ensures
        expand_tabs(bytes, tab_width).len() == bytes.len() + count_tabs(bytes) * (tab_width - 1),
    decreases bytes.len(),
{
    if bytes.len() == 0 {
        assert(count_tabs(bytes) * (tab_width - 1) == 0) by (nonlinear_arith)
            requires
                count_tabs(bytes) == 0,
        ;
    } else {
        lemma_expanded_length(bytes.drop_last(), tab_width);
        let before = count_tabs(bytes.drop_last());
        assert((before + 1) * (tab_width - 1) == before * (tab_width - 1) + (tab_width - 1))
            by (nonlinear_arith);
        assert(cells_of(bytes.last(), tab_width).len() == if bytes.last() == 0x09 {
            tab_width
        } else {
            1
        });
    }
}

/// Where the cursor is drawn, against what the row shows: the cursor stands
/// on the last cell of its byte, as far right of the row's start as the
/// bytes that the row shows up to the cursor's are wide, and further right
/// by the cells that the tabs before the window take beyond their first.
/// With no tab before the window the cursor is drawn on its own byte.
pub proof fn lemma_cursor_stands_on_its_byte(line: Seq<u8>, at: Placement, tab_width: nat)
    requires
        tab_width >= 1,
        at.column_offset <= at.column < line.len(),
    ensures
        screen_column(line, at, tab_width) + 1 == expand_tabs(
            line.subrange(at.column_offset as int, at.column as int + 1),
            tab_width,
        ).len() + count_tabs(line.take(at.column_offset as int)) * (tab_width - 1),
{
    let upto = line.take(at.column as int + 1);
    let shown = line.subrange(at.column_offset as int, at.column as int + 1);
    lemma_count_tabs_split(upto, at.column_offset as int);
    assert(upto.take(at.column_offset as int) =~= line.take(at.column_offset as int));
    assert(upto.subrange(at.column_offset as int, upto.len() as int) =~= shown);
    lemma_expanded_length(shown, tab_width);
    let hidden = count_tabs(line.take(at.column_offset as int));
    let seen = count_tabs(shown);
    assert((hidden + seen) * (tab_width - 1) == hidden * (tab_width - 1) + seen * (tab_width - 1))
        by (nonlinear_arith);
}

/// Appends the bytes.
fn append_bytes(buffer: &mut Vec<u8>, bytes: &[u8])
    ensures
        final(buffer)@ == old(buffer)@ + bytes@,
{
    let mut i: usize = 0;
    while i < bytes.len()
        invariant
            i <= bytes.len(),
            buffer@ == old(buffer)@ + bytes@.take(i as int),
        decreases bytes.len() - i,
    {
        buffer.push(bytes[i]);
        i = i + 1;
        assert(buffer@ =~= old(buffer)@ + bytes@.take(i as int));
    }
    assert(bytes@.take(i as int) =~= bytes@);
}

/// Appends the digits of `n` in base ten.
fn append_decimal(buffer: &mut Vec<u8>, n: u128)
    ensures
        final(buffer)@ == old(buffer)@ + decimal(n as nat),
    decreases n,
{
    if n >= 10 {
        append_decimal(buffer, n / 10);
    }
    let digit: u8 = (n % 10) as u8;
    buffer.push(0x30 + digit);
    assert(buffer@ =~= old(buffer)@ + decimal(n as nat));
}

/// Appends the cells of one byte of a line.
fn append_cells(buffer: &mut Vec<u8>, byte: u8, tab_width: usize)
    ensures
        final(buffer)@ == old(buffer)@ + cells_of(byte, tab_width as nat),
{
    if byte == 0x09 {
        let mut i: usize = 0;
        while i < tab_width
            invariant
                i <= tab_width,
                buffer@ == old(buffer)@ + Seq::new(i as nat, |k: int| 0x20u8),
            decreases tab_width - i,
        {
            buffer.push(0x20);
            i = i + 1;
            assert(buffer@ =~= old(buffer)@ + Seq::new(i as nat, |k: int| 0x20u8));
        }
    } else {
        buffer.push(byte);
        assert(buffer@ =~= old(buffer)@ + seq![byte]);
    }
}

/// A cell of the screen, counted from the top left cell, which is 0 and 0.
/// The column is held in 128 bits: tabs on a long line can carry the cursor
/// further right than a machine word counts.
#[derive(Clone, Copy, Debug, PartialEq, Eq, Structural)]
pub struct ScreenPosition {
    pub x: u128,
    pub y: usize,
}

/// The renderer. It knows the size of the screen and the width of a tab, and
/// holds the last frame it has built.
pub struct Screen {
    size: (usize, usize),
    abuf: Vec<u8>,
    tab_width: usize,
}

impl Screen {
    /// The number of columns of the screen.
    pub closed spec fn width(&self) -> nat {
        self.size.0 as nat
    }

    /// The number of rows of the screen.
    pub closed spec fn height(&self) -> nat {
        self.size.1 as nat
    }

    /// The number of cells that a tab takes.
    pub closed spec fn tab(&self) -> nat {
        self.tab_width as nat
    }

    /// The frame that was built last.
    pub closed spec fn frame(&self) -> Seq<u8> {
        self.abuf@
    }

    /// A tab takes at least one cell. Every screen that this module makes is
    /// well formed, and building a frame keeps it so.
    pub open spec fn wf(&self) -> bool {
        self.tab() >= 1
    }

    /// The same screen but for its frame.
    pub open spec fn same_screen(&self, other: &Screen) -> bool {
        &&& self.width() == other.width()
        &&& self.height() == other.height()
        &&& self.tab() == other.tab()
    }

    /// The window of this screen when it is scrolled to the given offsets.
    pub open spec fn window(&self, row_offset: usize, column_offset: usize) -> Window {
        Window {
            row_offset: row_offset as nat,
            column_offset: column_offset as nat,
            width: self.width(),
            height: self.height(),
            tab_width: self.tab(),
        }
    }

    /// A screen of `width` by `height` cells, with no frame built yet.
    pub fn with_size(width: usize, height: usize, tab_width: usize) -> (screen: Screen)
        requires
            tab_width >= 1,
        ensures
            screen.width() == width,
            screen.height() == height,
            screen.tab() == tab_width,
            screen.frame() == Seq::<u8>::empty(),
            screen.wf(),
    {
        Screen { size: (width, height), abuf: Vec::new(), tab_width }
    }

    /// The screen for a window whose size was asked for: `dimensions` holds
    /// the columns and the rows, or nothing where the size is not known.
    pub fn from_dimensions(
        dimensions: Option<(usize, usize)>,
        tab_width: usize,
    ) -> (made: Result<Screen, TerminalError>)
        requires
            tab_width >= 1,
        ensures
            match dimensions {
                Some((width, height)) => made matches Ok(screen) && screen.width() == width
                    && screen.height() == height && screen.tab() == tab_width && screen.frame()
                    == Seq::<u8>::empty(),
                None => made == Err::<Screen, TerminalError>(TerminalError::NoWindowSize),
            },
    {
        match dimensions {
            Some((width, height)) => Ok(Screen::with_size(width, height, tab_width)),
            None => Err(TerminalError::NoWindowSize),
        }
    }

    /// The screen for the window that the program's output goes to. It fails
    /// where the output is no terminal.
    pub fn new(tab_width: usize) -> (made: Result<Screen, TerminalError>)
        requires
            tab_width >= 1,
        ensures
            match made {
                Ok(screen) => screen.tab() == tab_width && screen.frame() == Seq::<u8>::empty(),
                Err(error) => error == TerminalError::NoWindowSize,
            },
    {
        Screen::from_dimensions(get_window_size(), tab_width)
    }

    /// The number of rows of the screen.
    pub fn get_height(&self) -> (height: usize)
        ensures
            height == self.height(),
    {
        self.size.1
    }

    /// The number of columns of the screen.
    pub fn get_width(&self) -> (width: usize)
        ensures
            width == self.width(),
    {
        self.size.0
    }

    /// The number of cells that a tab takes.
    pub fn get_tab_width(&self) -> (tab_width: usize)
        ensures
            tab_width == self.tab(),
    {
        self.tab_width
    }

    /// The frame that was built last, as the bytes to write to the terminal.
    pub fn get_frame(&self) -> (frame: &Vec<u8>)
        ensures
            frame@ == self.frame(),
    {
        &self.abuf
    }

    /// Appends the bytes of `s` to the frame.
    fn append_abuf(&mut self, s: &str)
        ensures
            final(self).abuf@ == old(self).abuf@ + s.spec_bytes(),
            final(self).same_screen(old(self)),
    {
        append_bytes(&mut self.abuf, s.as_bytes());
    }

    /// Appends what ends row `y`.
    fn append_row_end(&mut self, y: usize)
        ensures
            final(self).abuf@ == old(self).abuf@ + row_end(y as nat, old(self).height()),
            final(self).same_screen(old(self)),
    {
        // Clear what the row showed before.
        append_bytes(&mut self.abuf, &[0x1b, 0x5b, 0x4b]);
        if self.size.1 > 0 && y < self.size.1 - 1 {
            append_bytes(&mut self.abuf, &[0x0d, 0x0a]);
            assert(self.abuf@ =~= old(self).abuf@ + (clear_line_code() + line_break()));
        }
    }

    /// Builds the frame that shows `content` with the cursor at `cursor_row`
    /// and `cursor_column` and the window's top left cell on `row_offset` and
    /// `column_offset`. The frame replaces the one built before.
    pub fn editor_refresh_screen(
        &mut self,
        content: &Content,
        cursor_row: usize,
        cursor_column: usize,
        row_offset: usize,
        column_offset: usize,
    )
        requires
            old(self).wf(),
            row_offset <= cursor_row,
            column_offset <= cursor_column,
        ensures
            final(self).frame() == frame_of(
                content@,
                placement_of(cursor_row, cursor_column, row_offset, column_offset),
                old(self).width(),
                old(self).height(),
                old(self).tab(),
            ),
            final(self).same_screen(old(self)),
    {
        self.abuf.clear();

        // Hide the cursor while the rows are drawn, and start at the top left.
        append_bytes(&mut self.abuf, &[0x1b, 0x5b, 0x3f, 0x32, 0x35, 0x6c]);
        append_bytes(&mut self.abuf, &[0x1b, 0x5b, 0x48]);
        assert(self.abuf@ =~= hide_cursor_code() + home_code());

        self.draw_content(content, row_offset, column_offset);
        let ghost drawn = self.abuf@;

        // The terminal counts its rows and columns from 1.
        let position = self.cursor_position(
            content,
            cursor_row,
            cursor_column,
            row_offset,
            column_offset,
        );
        append_bytes(&mut self.abuf, &[0x1b, 0x5b]);
        append_decimal(&mut self.abuf, position.y as u128 + 1);
        append_bytes(&mut self.abuf, &[0x3b]);
        append_decimal(&mut self.abuf, position.x + 1);
        append_bytes(&mut self.abuf, &[0x48]);
        assert(self.abuf@ =~= drawn + cursor_code(position.y as nat + 1, position.x as nat + 1));

        // Show the cursor again.
        append_bytes(&mut self.abuf, &[0x1b, 0x5b, 0x3f, 0x32, 0x35, 0x68]);
    }

    /// The cell of the screen on which the cursor is drawn.
    pub fn cursor_position(
        &self,
        content: &Content,
        cursor_row: usize,
        cursor_column: usize,
        row_offset: usize,
        column_offset: usize,
    ) -> (position: ScreenPosition)
        requires
            self.wf(),
            row_offset <= cursor_row,
            column_offset <= cursor_column,
        ensures
            position.y == screen_row(
                placement_of(cursor_row, cursor_column, row_offset, column_offset),
            ),
            position.x == screen_column(
                line_at(content@, cursor_row as int),
                placement_of(cursor_row, cursor_column, row_offset, column_offset),
                self.tab(),
            ),
            position.x < u128::MAX,
    {
        let tabs_at_or_before_cursor: usize = if cursor_row < content.lines.len() {
            self.tabs_at_or_before_cursor(content.lines[cursor_row].as_str(), cursor_column)
        } else {
            0
        };
        let tabs = tabs_at_or_before_cursor as u128;
        let extra = (self.tab_width - 1) as u128;
        assert(tabs * extra <= 0xffff_ffff_ffff_ffff * 0xffff_ffff_ffff_ffff) by (nonlinear_arith)
            requires
                tabs <= 0xffff_ffff_ffff_ffff,
                extra <= 0xffff_ffff_ffff_ffff,
        ;
        ScreenPosition {
            x: (cursor_column - column_offset) as u128 + tabs * extra,
            y: cursor_row - row_offset,
        }
    }

    /// Appends all rows of the screen.
    fn draw_content(&mut self, content: &Content, row_offset: usize, column_offset: usize)
        ensures
            final(self).abuf@ == old(self).abuf@ + rows(
                content@,
                0,
                old(self).height(),
                old(self).window(row_offset, column_offset),
            ),
            final(self).same_screen(old(self)),
    {
        let ghost window = self.window(row_offset, column_offset);
        let content_len = content.lines.len();
        if content_len == 0 {
            self.draw_welcome_message();
            proof {
                lemma_rows_of_empty_buffer(content@, window);
            }
        } else {
            let shown = self.draw_content_rows(content, row_offset, column_offset);
            self.draw_filler_rows(shown);
            proof {
                if shown < window.height {
                    lemma_rows_below_text(content@, shown as nat, window.height, window);
                }
                lemma_rows_join(content@, 0, shown as nat, window.height, window);
            }
        }
    }

    /// Appends the rows that show a line of the buffer, and tells how many
    /// they are.
    fn draw_content_rows(
        &mut self,
        content: &Content,
        row_offset: usize,
        column_offset: usize,
    ) -> (shown: usize)
        ensures
            shown == text_rows(content@, old(self).window(row_offset, column_offset)),
            final(self).abuf@ == old(self).abuf@ + rows(
                content@,
                0,
                shown as nat,
                old(self).window(row_offset, column_offset),
            ),
            final(self).same_screen(old(self)),
    {
        let ghost window = self.window(row_offset, column_offset);
        let lines = content.lines.len();
        let height = self.size.1;
        let width = self.size.0;
        // Only the lines from `row_offset` on are drawn, and no more than the screen has rows.
        let visible_lines: usize = if row_offset >= lines {
            0
        } else if lines - row_offset <= height {
            lines - row_offset
        } else {
            height
        };
        let mut y: usize = 0;
        while y < visible_lines
            invariant
                y <= visible_lines,
                visible_lines == text_rows(content@, window),
                lines == content@.len(),
                height == old(self).height(),
                width == old(self).width(),
                window == old(self).window(row_offset, column_offset),
                self.abuf@ == old(self).abuf@ + rows(content@, 0, y as nat, window),
                self.same_screen(old(self)),
            decreases visible_lines - y,
        {
            let ghost before = self.abuf@;
            let line = content.line(y + row_offset);
            let ghost text = content@[row_offset + y];
            assert(line@ == text);

            let line_start = column_offset;
            let line_end: usize = if line_start >= line.len() {
                line.len()
            } else if line.len() - line_start <= width {
                line.len()
            } else {
                line_start + width
            };
            assert(line_end == visible_end(text, column_offset as nat, width as nat));
            if line_start < line_end {
                let mut x: usize = line_start;
                while x < line_end
                    invariant
                        line_start <= x <= line_end <= line.len(),
                        line@ == text,
                        self.abuf@ == before + expand_tabs(
                            text.subrange(line_start as int, x as int),
                            self.tab(),
                        ),
                        self.same_screen(old(self)),
                    decreases line_end - x,
                {
                    proof {
                        lemma_expand_tabs_step(text, line_start as int, x as int, self.tab());
                    }
                    append_cells(&mut self.abuf, line[x], self.tab_width);
                    x = x + 1;
                    assert(self.abuf@ =~= before + expand_tabs(
                        text.subrange(line_start as int, x as int),
                        self.tab(),
                    ));
                }
            } else {
                assert(self.abuf@ =~= before + Seq::<u8>::empty());
            }
            assert(self.abuf@ == before + row_text(content@, y as nat, window));

            self.append_row_end(y);
            y = y + 1;
            assert(self.abuf@ =~= old(self).abuf@ + rows(content@, 0, y as nat, window));
        }
        visible_lines
    }

    /// Appends the rows from `start_row` on, a tilde on each.
    fn draw_filler_rows(&mut self, start_row: usize)
        ensures
            final(self).abuf@ == old(self).abuf@ + filler_rows(
                start_row as nat,
                old(self).height(),
                old(self).height(),
            ),
            final(self).same_screen(old(self)),
    {
        let height = self.size.1;
        let mut y: usize = start_row;
        while y < height
            invariant
                start_row <= y,
                y <= height || y == start_row,
                height == old(self).height(),
                self.abuf@ == old(self).abuf@ + filler_rows(
                    start_row as nat,
                    y as nat,
                    height as nat,
                ),
                self.same_screen(old(self)),
            decreases height - y,
        {
            append_bytes(&mut self.abuf, &[0x7e]);
            self.append_row_end(y);
            y = y + 1;
            assert(self.abuf@ =~= old(self).abuf@ + filler_rows(
                start_row as nat,
                y as nat,
                height as nat,
            ));
        }
    }

    /// Appends the rows of a screen that shows an empty buffer: the welcome
    /// banner on the first row, a tilde on each row below.
    fn draw_welcome_message(&mut self)
        ensures
            final(self).abuf@ == old(self).abuf@ + welcome_rows(old(self).height()),
            final(self).same_screen(old(self)),
    {
        if self.size.1 >= 1 {
            self.append_abuf("Kilo editor -- version ");
            self.append_abuf(VERSION);
            self.append_row_end(0);
            self.draw_filler_rows(1);
            assert(self.abuf@ =~= old(self).abuf@ + welcome_rows(old(self).height()));
        }
    }

    /// The number of tabs of `line` at or before the column of the cursor.
    fn tabs_at_or_before_cursor(&self, line: &str, cursor_column: usize) -> (tabs: usize)
        ensures
            tabs == tabs_at_or_before(line.spec_bytes(), cursor_column as nat),
    {
        let bytes = line.as_bytes();
        let mut tabs: usize = 0;
        let mut i: usize = 0;
        while i < bytes.len() && i <= cursor_column
            invariant
                i <= bytes.len(),
                i <= cursor_column + 1,
                bytes@ == line.spec_bytes(),
                tabs == count_tabs(bytes@.take(i as int)),
                tabs <= i,
            decreases bytes.len() - i,
        {
            proof {
                lemma_count_tabs_step(bytes@, i as int);
            }
            if bytes[i] == 0x09 {
                tabs = tabs + 1;
            }
            i = i + 1;
        }
        assert(bytes@.take(bytes@.len() as int) =~= bytes@);
        tabs
    }

    /// Builds the frame that leaves the terminal clean when the viewer ends:
    /// the screen cleared and the cursor at home.
    pub fn clear_frame(&mut self)
        ensures
            final(self).frame() == clear_frame_of(),
            final(self).same_screen(old(self)),
    {
        self.abuf.clear();
        append_bytes(&mut self.abuf, &[0x1b, 0x5b, 0x32, 0x4a]);
        append_bytes(&mut self.abuf, &[0x1b, 0x5b, 0x48]);
        assert(self.abuf@ =~= clear_screen_code() + home_code());
    }
}

/// The size of the window that the program's output goes to, columns first,
/// as `term_size::dimensions_stdout` reports it. Nothing is claimed of the
/// numbers: they are whatever the terminal says at the time of the call, and
/// there are none where the output is no terminal.
#[verifier::external_body]
fn get_window_size() -> (dimensions: Option<(usize, usize)>) {
    term_size::dimensions_stdout()
}

} // verus!

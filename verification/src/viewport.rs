//! The coordinate model: where the cursor stands in the buffer, which part of
//! the buffer the screen shows, and how a key moves both.
//!
//! The editor keeps a placement and shows another. The column it keeps is the
//! one the user last moved to, and it survives a walk over shorter lines; the
//! column it shows is the kept one held to the line the cursor is on.

use crate::content::line_at;
use crate::input::Key;
use vstd::prelude::*;

verus! {

/// The cursor and the scroll offsets. `row` and `column` count lines of the
/// buffer and bytes of a line; the offsets name the line and the column that
/// the screen's top left cell shows.
pub struct Placement {
    pub row: nat,
    pub column: nat,
    pub row_offset: nat,
    pub column_offset: nat,
}

/// The four ways the cursor moves.
#[derive(Clone, Copy, Debug, PartialEq, Eq, Structural)]
pub enum Direction {
    Up,
    Down,
    Left,
    Right,
}

/// The direction that a key asks for: the four arrow keys move the cursor,
/// no other key does. A byte that is handed on as `Other`, whatever letter
/// it is, names no direction.
pub open spec fn direction_of(key: Key) -> Option<Direction> {
    match key {
        Key::ArrowUp => Some(Direction::Up),
        Key::ArrowDown => Some(Direction::Down),
        Key::ArrowLeft => Some(Direction::Left),
        Key::ArrowRight => Some(Direction::Right),
        _ => None,
    }
}

/// Whether the direction changes the row.
pub open spec fn is_vertical(direction: Direction) -> bool {
    direction == Direction::Up || direction == Direction::Down
}

/// The placement before any key: the cursor on the first byte of the first
/// line, nothing scrolled.
pub open spec fn origin() -> Placement {
    Placement { row: 0, column: 0, row_offset: 0, column_offset: 0 }
}

/// A column held to the line: a column past the end of the line becomes the
/// line's length, the place behind its last byte.
pub open spec fn clamp_column(column: nat, line_length: nat) -> nat {
    if column > line_length {
        line_length
    } else {
        column
    }
}

/// The offset of a window of `extent` cells after it has followed `position`:
/// a position before the window pulls the window's start onto itself, one
/// behind the window becomes the window's last cell, one inside leaves the
/// window where it is.
pub open spec fn scroll_into_view(position: nat, offset: nat, extent: nat) -> nat {
    if position < offset {
        position
    } else if extent >= 1 && position >= offset + extent {
        (position - extent + 1) as nat
    } else {
        offset
    }
}

/// The column offset and the column after the column has been held to a line
/// of `line_length` bytes: a column on the line changes nothing; one past the
/// end goes to the end, and the offset stays unless the end lies before it.
pub open spec fn held_to_line(line_length: nat, column: nat, column_offset: nat) -> (nat, nat) {
    if column > line_length {
        if line_length > column_offset {
            (column_offset, line_length)
        } else {
            (line_length, line_length)
        }
    } else {
        (column_offset, column)
    }
}

/// The placement that is shown for the one that is kept: the column and the
/// column offset held to the line that the cursor is on.
pub open spec fn shown(at: Placement, buffer: Seq<Seq<u8>>) -> Placement {
    let held = held_to_line(line_at(buffer, at.row as int).len(), at.column, at.column_offset);
    Placement { row: at.row, column: held.1, row_offset: at.row_offset, column_offset: held.0 }
}

/// The cursor after one step in `direction`, before the window follows it.
/// Up and Down stop at the first and the last line and keep the column. Left
/// and Right start from the shown placement, so from a column on the line,
/// and stop at the line's two ends.
pub open spec fn step(at: Placement, direction: Direction, buffer: Seq<Seq<u8>>) -> Placement {
    let held = shown(at, buffer);
    match direction {
        Direction::Up => if at.row > 0 {
            Placement { row: (at.row - 1) as nat, ..at }
        } else {
            at
        },
        Direction::Down => if at.row + 1 < buffer.len() {
            Placement { row: at.row + 1, ..at }
        } else {
            at
        },
        Direction::Left => if held.column > 0 {
            Placement { column: (held.column - 1) as nat, ..held }
        } else {
            held
        },
        Direction::Right => if held.column < line_at(buffer, at.row as int).len() {
            Placement { column: held.column + 1, ..held }
        } else {
            held
        },
    }
}

/// The placement after a move in `direction` on a screen of `width` by
/// `height` cells: the cursor steps, and the window follows it along the
/// direction of the step. A screen without rows ignores Up and Down, one
/// without columns ignores Left and Right.
pub open spec fn moved(
    at: Placement,
    direction: Direction,
    buffer: Seq<Seq<u8>>,
    width: nat,
    height: nat,
) -> Placement {
    let to = step(at, direction, buffer);
    if is_vertical(direction) {
        if height == 0 {
            at
        } else {
            Placement { row_offset: scroll_into_view(to.row, to.row_offset, height), ..to }
        }
    } else {
        if width == 0 {
            at
        } else {
            Placement { column_offset: scroll_into_view(to.column, to.column_offset, width), ..to }
        }
    }
}

/// The placement after a key: a key that names a direction moves, any other
/// key leaves the placement as it is.
pub open spec fn after_key(
    at: Placement,
    key: Key,
    buffer: Seq<Seq<u8>>,
    width: nat,
    height: nat,
) -> Placement {
    match direction_of(key) {
        Some(direction) => moved(at, direction, buffer, width, height),
        None => at,
    }
}

/// The placement after the keys of `keys`, the first of them first.
pub open spec fn after_keys(
    at: Placement,
    keys: Seq<Key>,
    buffer: Seq<Seq<u8>>,
    width: nat,
    height: nat,
) -> Placement
    decreases keys.len(),
{
    if keys.len() == 0 {
        at
    } else {
        after_key(
            after_keys(at, keys.drop_last(), buffer, width, height),
            keys.last(),
            buffer,
            width,
            height,
        )
    }
}

/// The cursor's row is one of the rows that the window shows.
pub open spec fn row_visible(at: Placement, height: nat) -> bool {
    at.row_offset <= at.row < at.row_offset + height
}

/// The cursor's column is one of the columns that the window shows.
pub open spec fn column_visible(at: Placement, width: nat) -> bool {
    at.column_offset <= at.column < at.column_offset + width
}

/// The cursor stands on its line or just behind the line's end.
pub open spec fn on_line(at: Placement, buffer: Seq<Seq<u8>>) -> bool {
    at.column <= line_at(buffer, at.row as int).len()
}

/// What holds of the kept placement between any two keys: the cursor's row
/// is a line of the buffer (the one empty line that an empty buffer is taken
/// to have), no offset lies behind the cursor, and a screen that has cells
/// shows the cursor.
pub open spec fn framed(at: Placement, buffer: Seq<Seq<u8>>, width: nat, height: nat) -> bool {
    &&& at.row < buffer.len() || at.row == 0
    &&& at.row_offset <= at.row
    &&& at.column_offset <= at.column
    &&& height >= 1 ==> row_visible(at, height)
    &&& width >= 1 ==> column_visible(at, width)
}

/// The origin is a framed placement, whatever the buffer and the screen.
pub proof fn lemma_origin_framed(buffer: Seq<Seq<u8>>, width: nat, height: nat)
    ensures
        framed(origin(), buffer, width, height),
        shown(origin(), buffer) == origin(),
{
}

/// A key keeps a framed placement framed.
pub proof fn lemma_key_keeps_framed(
    at: Placement,
    key: Key,
    buffer: Seq<Seq<u8>>,
    width: nat,
    height: nat,
)
    requires
        framed(at, buffer, width, height),
    ensures
        framed(after_key(at, key, buffer, width, height), buffer, width, height),
{
}

/// The shown cursor is never past the end of its line, whatever is kept.
pub proof fn lemma_shown_on_line(at: Placement, buffer: Seq<Seq<u8>>)
    ensures
        on_line(shown(at, buffer), buffer),
        shown(at, buffer).row == at.row,
        shown(at, buffer).row_offset == at.row_offset,
        shown(at, buffer).column == clamp_column(at.column, line_at(buffer, at.row as int).len()),
        shown(shown(at, buffer), buffer) == shown(at, buffer),
        on_line(at, buffer) ==> shown(at, buffer) == at,
{
}

/// What is shown for a framed placement is framed too: the window shows the
/// shown cursor as it shows the kept one.
pub proof fn lemma_shown_framed(at: Placement, buffer: Seq<Seq<u8>>, width: nat, height: nat)
    requires
        framed(at, buffer, width, height),
    ensures
        framed(shown(at, buffer), buffer, width, height),
{
}

/// After Up or Down, on a screen that has rows, the window shows the cursor's
/// row, wherever the cursor and the window were before.
pub proof fn lemma_vertical_visibility(
    at: Placement,
    key: Key,
    buffer: Seq<Seq<u8>>,
    width: nat,
    height: nat,
)
    requires
        height >= 1,
        direction_of(key) == Some(Direction::Up) || direction_of(key) == Some(Direction::Down),
    ensures
        row_visible(after_key(at, key, buffer, width, height), height),
        row_visible(shown(after_key(at, key, buffer, width, height), buffer), height),
{
}

/// After Left or Right, on a screen that has columns, the cursor is on its
/// line, so that what is shown is what is kept, and the window shows the
/// cursor's column, wherever the cursor and the window were before. Columns
/// count bytes of the line, a tab as one: what a tab takes on the screen
/// plays no part.
pub proof fn lemma_horizontal_visibility(
    at: Placement,
    key: Key,
    buffer: Seq<Seq<u8>>,
    width: nat,
    height: nat,
)
    requires
        width >= 1,
        direction_of(key) == Some(Direction::Left) || direction_of(key) == Some(Direction::Right),
    ensures
        column_visible(after_key(at, key, buffer, width, height), width),
        on_line(after_key(at, key, buffer, width, height), buffer),
        shown(after_key(at, key, buffer, width, height), buffer) == after_key(
            at,
            key,
            buffer,
            width,
            height,
        ),
{
}

/// After every key of a run of Up and Down keys, on a screen that has rows,
/// the window shows the cursor's row.
pub proof fn lemma_vertical_visibility_after_each(
    at: Placement,
    keys: Seq<Key>,
    buffer: Seq<Seq<u8>>,
    width: nat,
    height: nat,
    count: int,
)
    requires
        height >= 1,
        forall|i: int|
            0 <= i < keys.len() ==> direction_of(#[trigger] keys[i]) == Some(Direction::Up)
                || direction_of(keys[i]) == Some(Direction::Down),
        1 <= count <= keys.len(),
    ensures
        row_visible(shown(after_keys(at, keys.take(count), buffer, width, height), buffer), height),
{
    let run = keys.take(count);
    assert(run.last() == keys[count - 1]);
    lemma_vertical_visibility(
        after_keys(at, run.drop_last(), buffer, width, height),
        run.last(),
        buffer,
        width,
        height,
    );
}

/// After every key of a run of Left and Right keys, on a screen that has
/// columns, the window shows the cursor's column.
pub proof fn lemma_horizontal_visibility_after_each(
    at: Placement,
    keys: Seq<Key>,
    buffer: Seq<Seq<u8>>,
    width: nat,
    height: nat,
    count: int,
)
    requires
        width >= 1,
        forall|i: int|
            0 <= i < keys.len() ==> direction_of(#[trigger] keys[i]) == Some(Direction::Left)
                || direction_of(keys[i]) == Some(Direction::Right),
        1 <= count <= keys.len(),
    ensures
        column_visible(
            shown(after_keys(at, keys.take(count), buffer, width, height), buffer),
            width,
        ),
{
    let run = keys.take(count);
    assert(run.last() == keys[count - 1]);
    lemma_horizontal_visibility(
        after_keys(at, run.drop_last(), buffer, width, height),
        run.last(),
        buffer,
        width,
        height,
    );
}

/// After every key of any run of keys that starts from a framed placement,
/// what is kept and what is shown are framed: the window shows the cursor in
/// both directions wherever the screen has cells, and the shown cursor is on
/// its line.
pub proof fn lemma_framed_after_each(
    at: Placement,
    keys: Seq<Key>,
    buffer: Seq<Seq<u8>>,
    width: nat,
    height: nat,
)
    requires
        framed(at, buffer, width, height),
    ensures
        framed(after_keys(at, keys, buffer, width, height), buffer, width, height),
        framed(
            shown(after_keys(at, keys, buffer, width, height), buffer),
            buffer,
            width,
            height,
        ),
        on_line(shown(after_keys(at, keys, buffer, width, height), buffer), buffer),
    decreases keys.len(),
{
    if keys.len() > 0 {
        lemma_framed_after_each(at, keys.drop_last(), buffer, width, height);
        lemma_key_keeps_framed(
            after_keys(at, keys.drop_last(), buffer, width, height),
            keys.last(),
            buffer,
            width,
            height,
        );
    }
}

/// Moving down onto another line shows the cursor at the kept column where
/// the line is long enough and at the line's end where it is shorter, and
/// never past the end.
pub proof fn lemma_down_snaps_column(at: Placement, buffer: Seq<Seq<u8>>, width: nat, height: nat)
    requires
        height >= 1,
        at.row + 1 < buffer.len(),
    ensures
        ({
            let to = shown(moved(at, Direction::Down, buffer, width, height), buffer);
            &&& to.row == at.row + 1
            &&& to.column == clamp_column(at.column, buffer[(at.row + 1) as int].len())
            &&& to.column <= buffer[(at.row + 1) as int].len()
        }),
{
}

/// Up and Down keep the column: after a walk over shorter lines the cursor
/// is shown at the kept column again as soon as a line is long enough.
pub proof fn lemma_vertical_keeps_column(
    at: Placement,
    direction: Direction,
    buffer: Seq<Seq<u8>>,
    width: nat,
    height: nat,
)
    requires
        is_vertical(direction),
    ensures
        moved(at, direction, buffer, width, height).column == at.column,
        moved(at, direction, buffer, width, height).column_offset == at.column_offset,
{
}

/// Left and Right keep the row and the row offset.
pub proof fn lemma_horizontal_keeps_row(
    at: Placement,
    direction: Direction,
    buffer: Seq<Seq<u8>>,
    width: nat,
    height: nat,
)
    requires
        !is_vertical(direction),
    ensures
        moved(at, direction, buffer, width, height).row == at.row,
        moved(at, direction, buffer, width, height).row_offset == at.row_offset,
{
}

/// Only the arrow keys move: no key read, the escape key and every byte
/// that is handed on as it came leave the placement as it is.
pub proof fn lemma_only_arrows_move(
    at: Placement,
    key: Key,
    buffer: Seq<Seq<u8>>,
    width: nat,
    height: nat,
)
    requires
        key is NoKey || key is Esc || key is Other,
    ensures
        direction_of(key) is None,
        after_key(at, key, buffer, width, height) == at,
{
}

/// A key that names no direction changes nothing, and so does any run of
/// such keys: no key read, the escape key, or any other byte.
pub proof fn lemma_idle_keys_change_nothing(
    at: Placement,
    keys: Seq<Key>,
    buffer: Seq<Seq<u8>>,
    width: nat,
    height: nat,
)
    requires
        forall|i: int| 0 <= i < keys.len() ==> direction_of(#[trigger] keys[i]) is None,
    ensures
        after_keys(at, keys, buffer, width, height) == at,
    decreases keys.len(),
{
    if keys.len() > 0 {
        lemma_idle_keys_change_nothing(at, keys.drop_last(), buffer, width, height);
    }
}

} // verus!

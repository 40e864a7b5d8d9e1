use vstd::prelude::*;

verus! {

/// Number of keys on the board, and of labels in each legend.
pub const KEY_COUNT: u16 = 42;

/// Keys per grid row.
pub const KEYS_PER_ROW: u16 = 12;

/// Width of one key cell.
pub const KEY_WIDTH: u16 = 8;

/// Height of one key cell.
pub const KEY_HEIGHT: u16 = 4;

/// Gap between neighbouring cells.
pub const KEY_SPACING: u16 = 1;

/// Distance of the top row from the top edge.
pub const INITIAL_OFFSET_Y: u16 = 3;

/// A key cell on the terminal: its top-left corner and its size.
#[derive(Debug, Clone, Copy, PartialEq, Eq, Structural)]
pub struct KeyRect {
    pub x: u16,
    pub y: u16,
    pub width: u16,
    pub height: u16,
}

/// How far a column is raised, following the stagger of the physical board.
pub open spec fn column_stagger(column: int) -> int {
    if column == 2 || column == 4 || column == 7 || column == 9 {
        2
    } else if column == 3 || column == 8 {
        3
    } else if column == 5 || column == 6 {
        1
    } else {
        0
    }
}

/// Extra horizontal shift: the right half sits apart from the left half,
/// and the thumb row sits further right still.
pub open spec fn horizontal_shift(column: int, row: int) -> int {
    let split = if 6 <= column < 12 { 10int } else { 0int };
    if row == 3 {
        split + 27 + if column > 2 { 10int } else { 0int }
    } else {
        split
    }
}

/// Vertical raise of a key: the column stagger, except on the thumb row.
pub open spec fn vertical_raise(column: int, row: int) -> int {
    if row == 3 { 0 } else { column_stagger(column) }
}

/// The cell of the key at scan position `key_index`.
pub open spec fn key_rect_spec(key_index: u16) -> KeyRect {
    let column = key_index % KEYS_PER_ROW;
    let row = key_index / KEYS_PER_ROW;
    KeyRect {
        x: (column * (KEY_WIDTH + KEY_SPACING) + horizontal_shift(column as int, row as int)) as u16,
        y: (row * (KEY_HEIGHT + KEY_SPACING) + INITIAL_OFFSET_Y - vertical_raise(
            column as int,
            row as int,
        )) as u16,
        width: KEY_WIDTH,
        height: KEY_HEIGHT,
    }
}

/// Whether two cells share no point.
pub open spec fn disjoint(a: KeyRect, b: KeyRect) -> bool {
    a.x + a.width <= b.x || b.x + b.width <= a.x || a.y + a.height <= b.y || b.y + b.height
        <= a.y
}

/// Computes the cell of the key at scan position `key_index`, in a grid of
/// twelve columns with a per-column stagger.
pub fn key_rect(key_index: u16) -> (r: KeyRect)
    ensures
        r == key_rect_spec(key_index),
        r.x == (key_index % 12) * 9 + horizontal_shift((key_index % 12) as int, (key_index / 12) as int),
        r.y == (key_index / 12) * 5 + 3 - vertical_raise((key_index % 12) as int, (key_index / 12) as int),
{
    let column: u16 = key_index % KEYS_PER_ROW;
    let row: u16 = key_index / KEYS_PER_ROW;

    let mut column_offset: u16 = match column {
        2 => 2,
        3 => 3,
        4 => 2,
        5 => 1,
        6 => 1,
        7 => 2,
        8 => 3,
        9 => 2,
        _ => 0,
    };

    let mut row_offset: u16 = if 6 <= column && column < 12 {
        10
    } else {
        0
    };

    if row == 3 {
        row_offset = row_offset + 27;
        column_offset = 0;
        if column > 2 {
            row_offset = row_offset + 10;
        }
    }

    let x: u16 = column * (KEY_WIDTH + KEY_SPACING) + row_offset;
    let y: u16 = row * (KEY_HEIGHT + KEY_SPACING) + INITIAL_OFFSET_Y - column_offset;

    KeyRect { x, y, width: KEY_WIDTH, height: KEY_HEIGHT }
}

/// No two of the board's keys are drawn over one another.
pub proof fn lemma_keys_disjoint(i: u16, j: u16)
    requires
        i < KEY_COUNT,
        j < KEY_COUNT,
        i != j,
    ensures
        disjoint(key_rect_spec(i), key_rect_spec(j)),
{
    let ci = i % 12;
    let ri = i / 12;
    let cj = j % 12;
    let rj = j / 12;
    assert(i == ri * 12 + ci && ri <= 3);
    assert(j == rj * 12 + cj && rj <= 3);
}

} // verus!

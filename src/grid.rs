//! Deterministic grid layout of desktop icons.
//!
//! Cells run left to right, then top to bottom, starting at a fixed inset
//! from the top-left corner of the primary output. A row wraps when the next
//! cell would cross the right edge of the screen.

use vstd::prelude::*;

verus! {

/// Height in pixels of the label area under each icon.
pub const LABEL_HEIGHT: u32 = 24;

/// Distance in pixels from the top-left corner of the screen to the first cell.
pub const GRID_INSET: u32 = 20;

/// Screen size assumed when no output reports one.
pub const DEFAULT_SCREEN_WIDTH: u32 = 1920;

/// Screen size assumed when no output reports one.
pub const DEFAULT_SCREEN_HEIGHT: u32 = 1080;

/// Top-left corner of an icon surface, in screen coordinates.
#[derive(Debug, Clone, Copy, PartialEq, Eq)]
pub struct Position {
    pub x: i32,
    pub y: i32,
}

/// Number of cells in one row: as many whole cells as fit between the inset
/// and the right edge, and at least one.
pub open spec fn grid_columns(screen_width: int, cell_width: int) -> int {
    if cell_width > 0 && screen_width >= GRID_INSET + cell_width {
        (screen_width - GRID_INSET) / cell_width
    } else {
        1
    }
}

/// Left edge of cell `index`.
pub open spec fn grid_x(index: int, screen_width: int, cell_width: int) -> int {
    GRID_INSET + (index % grid_columns(screen_width, cell_width)) * cell_width
}

/// Top edge of cell `index`.
pub open spec fn grid_y(index: int, screen_width: int, cell_width: int, cell_height: int) -> int {
    GRID_INSET + (index / grid_columns(screen_width, cell_width)) * cell_height
}

/// A non-negative offset as a layer-shell margin; offsets past the margin
/// range stay at its largest value.
pub open spec fn margin_of(v: int) -> i32 {
    if v > i32::MAX {
        i32::MAX
    } else {
        v as i32
    }
}

/// The position of cell `index` on a screen `screen_width` pixels wide.
pub open spec fn grid_position_spec(
    index: int,
    screen_width: int,
    cell_width: int,
    cell_height: int,
) -> Position {
    Position {
        x: margin_of(grid_x(index, screen_width, cell_width)),
        y: margin_of(grid_y(index, screen_width, cell_width, cell_height)),
    }
}

/// Computes the position of grid cell `index`.
pub fn grid_position(screen_width: u32, index: u32, cell_width: u32, cell_height: u32) -> (p:
    Position)
    ensures
        p == grid_position_spec(index as int, screen_width as int, cell_width as int, cell_height as int),
{
    let fits_one: bool = cell_width > 0 && screen_width as u64 >= GRID_INSET as u64 + cell_width as u64;
    let mut cols: u64 = 1;
    if fits_one {
        let room: u64 = screen_width as u64 - GRID_INSET as u64;
        cols = room / cell_width as u64;
        assert(cols >= 1 && cols <= u32::MAX) by (nonlinear_arith)
            requires
                cell_width > 0,
                room >= cell_width,
                room <= u32::MAX,
                cols == room / cell_width as u64,
        ;
    }
    assert(cols == grid_columns(screen_width as int, cell_width as int));
    let col: u64 = index as u64 % cols;
    let row: u64 = index as u64 / cols;
    assert(col <= u32::MAX && row <= u32::MAX) by (nonlinear_arith)
        requires
            cols >= 1,
            col == index as u64 % cols,
            row == index as u64 / cols,
            index <= u32::MAX,
    ;
    assert(col * cell_width as u64 <= 0xffff_fffe_0000_0001u64) by (nonlinear_arith)
        requires
            col <= u32::MAX,
            cell_width <= u32::MAX,
    ;
    assert(row * cell_height as u64 <= 0xffff_fffe_0000_0001u64) by (nonlinear_arith)
        requires
            row <= u32::MAX,
            cell_height <= u32::MAX,
    ;
    let x: u64 = GRID_INSET as u64 + col * cell_width as u64;
    let y: u64 = GRID_INSET as u64 + row * cell_height as u64;
    let px: i32 = if x > i32::MAX as u64 {
        i32::MAX
    } else {
        x as i32
    };
    let py: i32 = if y > i32::MAX as u64 {
        i32::MAX
    } else {
        y as i32
    };
    Position { x: px, y: py }
}

/// Every cell of a row lies inside the screen, and the cell after the last
/// one of a row would cross the right edge: that is where the row wraps.
pub proof fn lemma_row_wraps_at_edge(index: int, screen_width: int, cell_width: int)
    requires
        index >= 0,
        cell_width > 0,
        screen_width >= GRID_INSET + cell_width,
    ensures
        grid_x(index, screen_width, cell_width) + cell_width <= screen_width,
        index % grid_columns(screen_width, cell_width) == grid_columns(screen_width, cell_width) - 1
            ==> grid_x(index, screen_width, cell_width) + 2 * cell_width > screen_width,
{
    let cols = grid_columns(screen_width, cell_width);
    let col = index % cols;
    let w = screen_width - GRID_INSET;
    assert(cols == w / cell_width);
    assert(cols >= 1) by (nonlinear_arith)
        requires
            cols == w / cell_width,
            w >= cell_width,
            cell_width > 0,
    ;
    assert(0 <= col < cols) by (nonlinear_arith)
        requires
            cols >= 1,
            col == index % cols,
            index >= 0,
    ;
    assert((col + 1) * cell_width <= w) by (nonlinear_arith)
        requires
            col + 1 <= cols,
            cols == w / cell_width,
            cell_width > 0,
            w >= 0,
    ;
    assert((col + 1) * cell_width == col * cell_width + cell_width) by (nonlinear_arith);
    assert(grid_x(index, screen_width, cell_width) == GRID_INSET + col * cell_width);
    if col == cols - 1 {
        assert((col + 2) * cell_width > w) by (nonlinear_arith)
            requires
                col + 2 == cols + 1,
                cols == w / cell_width,
                cell_width > 0,
                w >= 0,
        ;
        assert((col + 2) * cell_width == col * cell_width + 2 * cell_width) by (nonlinear_arith);
    }
}

} // verus!

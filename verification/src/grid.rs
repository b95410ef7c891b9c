//! The coordinate mapper: a pure, bidirectional mapping between discrete
//! grid cells of a 6-by-6 board and world coordinates measured in pixels.
//!
//! World coordinates are integer pixel offsets from the board's centre, so
//! that cell centres land on exact integers: cell `(x, y)` sits at
//! `(x * 72 - 180, y * 72 - 180)`, which makes the board symmetric about the
//! origin. The inverse mapping snaps an arbitrary world point to the cell
//! under it, and reports a point outside the board as `None` rather than
//! letting the cell index wrap around.

use vstd::prelude::*;
use vstd::arithmetic::div_mod::{
    lemma_fundamental_div_mod_converse_div, lemma_fundamental_div_mod_converse_mod,
    lemma_hoist_over_denominator,
};

verus! {

/// Side length of one board cell, in pixels.
pub const CELL_SIZE: i32 = 72;

/// Number of cells along each side of the board.
pub const BOARD_CELLS: u8 = 6;

/// Distance from the board's centre to the centre of the first cell:
/// `(BOARD_CELLS - 1) * CELL_SIZE / 2`.
pub const CENTER_OFFSET: i32 = 180;

/// Smallest world coordinate that still snaps onto the board.
pub const BOARD_MIN_WORLD: i32 = -216;

/// Largest world coordinate that still snaps onto the board.
pub const BOARD_MAX_WORLD: i32 = 215;

/// World coordinate of the centre of the cell with index `c`.
pub open spec fn world_of_cell(c: int) -> int {
    c * (CELL_SIZE as int) - (CENTER_OFFSET as int)
}

/// Cell index under the world coordinate `w` (division rounds towards
/// negative infinity, so each cell owns a half-open pixel interval).
pub open spec fn cell_of_world(w: int) -> int {
    w / (CELL_SIZE as int) + (BOARD_CELLS as int) / 2
}

/// Whether `c` is a cell index on the board.
pub open spec fn cell_in_board(c: int) -> bool {
    0 <= c < BOARD_CELLS as int
}

/// The cell a world point snaps to: its cell indices on both axes, or
/// `None` for a point that lies off the board.
pub open spec fn snap_to_cell(wx: int, wy: int) -> Option<(u8, u8)> {
    if cell_in_board(cell_of_world(wx)) && cell_in_board(cell_of_world(wy)) {
        Some((cell_of_world(wx) as u8, cell_of_world(wy) as u8))
    } else {
        None
    }
}

/// Maps a grid cell to the world coordinates of its centre. Defined for
/// every cell index; indices beyond the board simply land off-screen.
pub fn cell_to_world(x: u8, y: u8) -> (r: (i32, i32))
    ensures
        r.0 == world_of_cell(x as int),
        r.1 == world_of_cell(y as int),
{
    ((x as i32) * CELL_SIZE - CENTER_OFFSET, (y as i32) * CELL_SIZE - CENTER_OFFSET)
}

/// Maps a world point to the board cell under it, or `None` when the point
/// lies outside the board on either axis.
pub fn world_to_cell(wx: i32, wy: i32) -> (r: Option<(u8, u8)>)
    ensures
        r == snap_to_cell(wx as int, wy as int),
{
    if wx < BOARD_MIN_WORLD || wx > BOARD_MAX_WORLD || wy < BOARD_MIN_WORLD
        || wy > BOARD_MAX_WORLD {
        proof {
            lemma_snap_range(wx as int);
            lemma_snap_range(wy as int);
        }
        None
    } else {
        let ux: u32 = (wx + 216) as u32;
        let uy: u32 = (wy + 216) as u32;
        let cx: u8 = (ux / 72) as u8;
        let cy: u8 = (uy / 72) as u8;
        proof {
            lemma_snap_range(wx as int);
            lemma_snap_range(wy as int);
            lemma_hoist_over_denominator(wx as int, 3, 72);
            lemma_hoist_over_denominator(wy as int, 3, 72);
        }
        Some((cx, cy))
    }
}

/// A world coordinate snaps onto the board exactly when it lies in
/// `[BOARD_MIN_WORLD, BOARD_MAX_WORLD]`.
proof fn lemma_snap_range(w: int)
    ensures
        cell_in_board(cell_of_world(w)) <==> BOARD_MIN_WORLD as int <= w
            <= BOARD_MAX_WORLD as int,
{
    lemma_hoist_over_denominator(w, 3, 72);
    if BOARD_MIN_WORLD as int <= w <= BOARD_MAX_WORLD as int {
        assert(0 <= (w + 216) / 72 < 6);
    }
    if cell_in_board(cell_of_world(w)) {
        assert(0 <= (w + 216) / 72 < 6);
        assert(w + 216 >= 0);
        assert(w + 216 < 432);
    }
}

/// Round trip: a cell centre snaps back to the very cell it came from, for
/// every cell on the board. Snapping is therefore idempotent on
/// grid-aligned points.
pub proof fn lemma_round_trip(x: u8, y: u8)
    requires
        cell_in_board(x as int),
        cell_in_board(y as int),
    ensures
        snap_to_cell(world_of_cell(x as int), world_of_cell(y as int)) == Some((x, y)),
{
    lemma_cell_of_own_center(x as int);
    lemma_cell_of_own_center(y as int);
}

/// The centre of cell `c` lies in the half-open pixel interval that cell
/// `c` owns.
proof fn lemma_cell_of_own_center(c: int)
    requires
        cell_in_board(c),
    ensures
        cell_of_world(world_of_cell(c)) == c,
{
    assert(world_of_cell(c) == (c - 3) * 72 + 36) by {
        assert(c * 72 - 180 == (c - 3) * 72 + 36) by (nonlinear_arith);
    }
    lemma_fundamental_div_mod_converse_div(world_of_cell(c), 72, c - 3, 36);
}

/// The board is centred: the first and last cell centres are mirror images
/// of each other through the origin, on each axis.
pub proof fn lemma_board_centered()
    ensures
        world_of_cell(0) == -world_of_cell(BOARD_CELLS as int - 1),
{
}

/// Checkerboard parity: the square at `(x, y)` is dark exactly when its
/// coordinates have equal parity.
pub open spec fn dark_square(x: int, y: int) -> bool {
    x % 2 == y % 2
}

/// Whether the board square at `(x, y)` is drawn with the dark sprite.
pub fn is_dark_square(x: u8, y: u8) -> (r: bool)
    ensures
        r == dark_square(x as int, y as int),
{
    x % 2 == y % 2
}

/// One square of the board, laid out for rendering: its cell indices, the
/// world coordinates of its centre, and its checkerboard colour.
pub struct BoardSquare {
    pub x: u8,
    pub y: u8,
    pub world_x: i32,
    pub world_y: i32,
    pub dark: bool,
}

/// A square whose world position and colour agree with its cell indices.
pub open spec fn wf_square(s: BoardSquare) -> bool {
    &&& cell_in_board(s.x as int)
    &&& cell_in_board(s.y as int)
    &&& s.world_x == world_of_cell(s.x as int)
    &&& s.world_y == world_of_cell(s.y as int)
    &&& s.dark == dark_square(s.x as int, s.y as int)
}

/// Lays out every square of the board, column by column: entry `k` is the
/// square at cell `(k / BOARD_CELLS, k % BOARD_CELLS)`.
pub fn board_squares() -> (v: Vec<BoardSquare>)
    ensures
        v@.len() == (BOARD_CELLS as int) * (BOARD_CELLS as int),
        forall|k: int|
            0 <= k < v@.len() ==> wf_square(#[trigger] v@[k]) && v@[k].x == k / (
            BOARD_CELLS as int) && v@[k].y == k % (BOARD_CELLS as int),
{
    let mut v: Vec<BoardSquare> = Vec::new();
    let mut x: u8 = 0;
    while x < BOARD_CELLS
        invariant
            x <= BOARD_CELLS,
            v@.len() == (x as int) * (BOARD_CELLS as int),
            forall|k: int|
                0 <= k < v@.len() ==> wf_square(#[trigger] v@[k]) && v@[k].x == k / (
                BOARD_CELLS as int) && v@[k].y == k % (BOARD_CELLS as int),
        decreases BOARD_CELLS as int - x as int,
    {
        let mut y: u8 = 0;
        while y < BOARD_CELLS
            invariant
                x < BOARD_CELLS,
                y <= BOARD_CELLS,
                v@.len() == (x as int) * (BOARD_CELLS as int) + (y as int),
                forall|k: int|
                    0 <= k < v@.len() ==> wf_square(#[trigger] v@[k]) && v@[k].x == k / (
                    BOARD_CELLS as int) && v@[k].y == k % (BOARD_CELLS as int),
            decreases BOARD_CELLS as int - y as int,
        {
            let (wx, wy) = cell_to_world(x, y);
            let dark = is_dark_square(x, y);
            let square = BoardSquare { x, y, world_x: wx, world_y: wy, dark };
            proof {
                lemma_fundamental_div_mod_converse_div(
                    (x as int) * 6 + (y as int),
                    6,
                    x as int,
                    y as int,
                );
                lemma_fundamental_div_mod_converse_mod(
                    (x as int) * 6 + (y as int),
                    6,
                    x as int,
                    y as int,
                );
            }
            v.push(square);
            y = y + 1;
        }
        x = x + 1;
    }
    v
}

} // verus!

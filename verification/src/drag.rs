//! The drag-state tracker: a per-frame-polled state machine over the mouse
//! button that detects press and release edges and, while the button is
//! held, snaps the draggable pawn to the board cell under the cursor.
//!
//! Each frame the host hands the tracker the current button state and the
//! cursor's world position, if one is available (the cursor may be outside
//! the window). The tracker reports the pawn move to apply this frame, if
//! any: the pawn only moves while the button is held, the cursor is
//! available, and it points at a cell on the board; otherwise the last
//! known cell persists.

use vstd::prelude::*;
use crate::grid;

verus! {

/// Mouse press state, polled once per frame. `just_pressed` and
/// `just_released` are one-frame edge signals: each holds on the single
/// frame of the corresponding transition and on no other.
pub struct DragTracker {
    /// Whether the primary button reads down this frame.
    pub pressed: bool,
    /// Whether this frame is the rising edge of a press.
    pub just_pressed: bool,
    /// Whether this frame is the falling edge of a release.
    pub just_released: bool,
    /// The last board cell computed under the cursor while dragging.
    pub grid_position: Option<(u8, u8)>,
}

/// The move to apply to the draggable pawn this frame: the cell it snaps
/// to and the world coordinates of that cell's centre.
pub struct PawnMove {
    pub cell: (u8, u8),
    pub world: (i32, i32),
}

/// The cell recorded after one frame: while the button is down and the
/// cursor points at a board cell, that cell; otherwise the previous one.
pub open spec fn step_cell(
    down: bool,
    cursor: Option<(i32, i32)>,
    prev: Option<(u8, u8)>,
) -> Option<(u8, u8)> {
    if down {
        match cursor {
            Some(w) => match grid::snap_to_cell(w.0 as int, w.1 as int) {
                Some(c) => Some(c),
                None => prev,
            },
            None => prev,
        }
    } else {
        prev
    }
}

/// The tracker state after one frame with button state `down` and cursor
/// position `cursor`.
pub open spec fn step(t: DragTracker, down: bool, cursor: Option<(i32, i32)>) -> DragTracker {
    DragTracker {
        pressed: down,
        just_pressed: down && !t.pressed,
        just_released: !down && t.pressed,
        grid_position: step_cell(down, cursor, t.grid_position),
    }
}

impl DragTracker {
    /// A fresh tracker: button up, no edges, no cell seen yet.
    pub fn new() -> (t: DragTracker)
        ensures
            t == (DragTracker {
                pressed: false,
                just_pressed: false,
                just_released: false,
                grid_position: None,
            }),
    {
        DragTracker { pressed: false, just_pressed: false, just_released: false, grid_position: None }
    }

    /// Advances the tracker by one frame and returns the pawn move to
    /// apply, if the cursor points at a board cell while the button is
    /// held. The returned world position is always the forward mapping of
    /// the returned cell, so the pawn's sprite snaps to the cell centre.
    pub fn update(&mut self, button_down: bool, cursor_world: Option<(i32, i32)>) -> (mv: Option<
        PawnMove,
    >)
        ensures
            *final(self) == step(*old(self), button_down, cursor_world),
            mv is Some <==> (button_down && match cursor_world {
                Some(w) => grid::snap_to_cell(w.0 as int, w.1 as int) is Some,
                None => false,
            }),
            mv matches Some(m) ==> {
                &&& Some(m.cell) == final(self).grid_position
                &&& Some(m.cell) == grid::snap_to_cell(
                    cursor_world.unwrap().0 as int,
                    cursor_world.unwrap().1 as int,
                )
                &&& m.world.0 == grid::world_of_cell(m.cell.0 as int)
                &&& m.world.1 == grid::world_of_cell(m.cell.1 as int)
            },
    {
        if button_down {
            self.just_pressed = !self.pressed;
            self.just_released = false;
            self.pressed = true;
            if let Some((sx, sy)) = cursor_world {
                if let Some((cx, cy)) = grid::world_to_cell(sx, sy) {
                    self.grid_position = Some((cx, cy));
                    let world = grid::cell_to_world(cx, cy);
                    return Some(PawnMove { cell: (cx, cy), world });
                }
            }
            None
        } else {
            self.just_released = self.pressed;
            self.just_pressed = false;
            self.pressed = false;
            None
        }
    }
}

/// Press and release edges each last exactly one frame: over a drag of two
/// held frames followed by two released frames, `just_pressed` holds only
/// on the first held frame and `just_released` only on the first released
/// frame, whatever the cursor reports.
pub proof fn lemma_edges_last_one_frame(
    t: DragTracker,
    c1: Option<(i32, i32)>,
    c2: Option<(i32, i32)>,
    c3: Option<(i32, i32)>,
    c4: Option<(i32, i32)>,
)
    requires
        !t.pressed,
    ensures
        step(t, true, c1).just_pressed,
        !step(step(t, true, c1), true, c2).just_pressed,
        !step(step(t, true, c1), true, c2).just_released,
        step(step(step(t, true, c1), true, c2), false, c3).just_released,
        !step(step(step(t, true, c1), true, c2), false, c3).just_pressed,
        !step(step(step(step(t, true, c1), true, c2), false, c3), false, c4).just_released,
{
}

/// While the button is held and the cursor points at a board cell, the
/// tracker records exactly the cell under the cursor; when the cursor is
/// unavailable or off the board, the previously recorded cell persists.
pub proof fn lemma_drag_follows_cursor(t: DragTracker, w: (i32, i32))
    ensures
        grid::snap_to_cell(w.0 as int, w.1 as int) is Some ==> step(
            t,
            true,
            Some(w),
        ).grid_position == grid::snap_to_cell(w.0 as int, w.1 as int),
        grid::snap_to_cell(w.0 as int, w.1 as int) is None ==> step(
            t,
            true,
            Some(w),
        ).grid_position == t.grid_position,
        step(t, true, None).grid_position == t.grid_position,
{
}

} // verus!

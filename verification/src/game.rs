//! The whole prototype's state and its once-per-frame update: the board
//! layout, the draggable pawn, the drag tracker and the level counter,
//! gathered in one struct that the host's event loop owns and advances.
//!
//! The pawn's invariant is that its rendered world position is always the
//! forward mapping of its grid position, so the sprite sits exactly on the
//! centre of the cell it occupies.

use vstd::prelude::*;
use crate::drag;
use crate::drag::DragTracker;
use crate::grid;
use crate::level;
use crate::level::LevelCounter;

verus! {

/// The draggable pawn: its board cell and its rendered world position.
pub struct Pawn {
    pub cell: (u8, u8),
    pub world: (i32, i32),
}

impl Pawn {
    /// The pawn sits on a board cell and its rendered position is that
    /// cell's centre.
    pub open spec fn wf(self) -> bool {
        &&& grid::cell_in_board(self.cell.0 as int)
        &&& grid::cell_in_board(self.cell.1 as int)
        &&& self.world.0 == grid::world_of_cell(self.cell.0 as int)
        &&& self.world.1 == grid::world_of_cell(self.cell.1 as int)
    }

    /// Places a pawn on the given board cell, rendered at the cell's
    /// centre.
    pub fn at_cell(x: u8, y: u8) -> (p: Pawn)
        requires
            grid::cell_in_board(x as int),
            grid::cell_in_board(y as int),
        ensures
            p.wf(),
            p.cell == (x, y),
    {
        let world = grid::cell_to_world(x, y);
        Pawn { cell: (x, y), world }
    }
}

/// What the host hands the update for one frame: the frame's wall-clock
/// delta, the primary button's state, and the cursor's world position when
/// one is available.
pub struct FrameInput {
    pub delta_ms: u32,
    pub button_down: bool,
    pub cursor_world: Option<(i32, i32)>,
}

/// The prototype's whole mutable state.
pub struct Game {
    pub pawn: Pawn,
    pub tracker: DragTracker,
    pub counter: LevelCounter,
}

impl Game {
    /// Every part of the state is well formed.
    pub open spec fn wf(self) -> bool {
        &&& self.pawn.wf()
        &&& self.counter.wf()
    }

    /// A fresh game: the pawn on its starting cell, the tracker idle, the
    /// counter at level one.
    pub fn new(start_x: u8, start_y: u8) -> (g: Game)
        requires
            grid::cell_in_board(start_x as int),
            grid::cell_in_board(start_y as int),
        ensures
            g.wf(),
            g.pawn.cell == (start_x, start_y),
            g.counter.level == 1,
            g.counter.rem_ms == 0,
            g.tracker == (DragTracker {
                pressed: false,
                just_pressed: false,
                just_released: false,
                grid_position: None,
            }),
    {
        Game {
            pawn: Pawn::at_cell(start_x, start_y),
            tracker: DragTracker::new(),
            counter: LevelCounter::new(),
        }
    }

    /// Advances the whole state by one frame: the level counter absorbs
    /// the frame's delta time, then the drag tracker polls the button and
    /// cursor and, while dragging over the board, moves the pawn to the
    /// cell under the cursor.
    pub fn update_frame(&mut self, input: FrameInput)
        requires
            old(self).wf(),
        ensures
            final(self).wf(),
            final(self).counter.level as nat == level::next_level(
                old(self).counter.level as nat,
                old(self).counter.rem_ms as nat,
                input.delta_ms as nat,
            ),
            final(self).counter.rem_ms as nat == level::next_rem(
                old(self).counter.rem_ms as nat,
                input.delta_ms as nat,
            ),
            final(self).tracker == drag::step(
                old(self).tracker,
                input.button_down,
                input.cursor_world,
            ),
            final(self).pawn.cell == match drag::step_cell(
                input.button_down,
                input.cursor_world,
                Some(old(self).pawn.cell),
            ) {
                Some(c) => c,
                None => old(self).pawn.cell,
            },
    {
        self.counter.tick(input.delta_ms);
        let mv = self.tracker.update(input.button_down, input.cursor_world);
        if let Some(m) = mv {
            self.pawn = Pawn { cell: m.cell, world: m.world };
        }
    }
}

} // verus!

//! A minimal chessboard prototype core: a bidirectional mapper between
//! discrete grid cells and integer pixel coordinates, a mouse drag-state
//! tracker that snaps a draggable pawn to board cells, and a level counter
//! driven by accumulated frame time. The windowing, rendering and input
//! polling that surround this core are left to the host application.

pub mod drag;
pub mod game;
pub mod grid;
pub mod level;

//! Core simulation of a lane-crossing arcade game: a grid-aligned actor must
//! cross road lanes full of moving hazards and river lanes of floating
//! platforms to claim one of five goal slots, with a finite number of lives.
//!
//! All horizontal positions, offsets and widths are measured in milli-pixels
//! (one pixel = 1000 units) and elapsed time in milliseconds, so that a speed
//! in pixels per second times a duration in milliseconds is exactly a distance
//! in milli-pixels, with no rounding anywhere in the simulation.

use vstd::prelude::*;

pub mod frog;
pub mod game;
pub mod geom;
pub mod goal;
pub mod lane;
pub mod object;
mod rng;

verus! {

/// Screen width in pixels (20 columns of 32 pixels).
pub const SCREEN_WIDTH_PX: i64 = 640;

/// Screen height in pixels (15 rows of 32 pixels).
pub const SCREEN_HEIGHT_PX: i64 = 480;

/// Side of one grid cell, in pixels.
pub const CELL_SIZE_PX: i64 = 32;

/// Number of grid columns.
pub const GRID_COLS: i64 = 20;

/// Number of grid rows.
pub const GRID_ROWS: i64 = 15;

/// Milli-pixels per pixel: the fixed-point scale of every horizontal
/// coordinate in the simulation.
pub const MP_PER_PX: i64 = 1000;

/// Side of one grid cell, in milli-pixels.
pub const CELL_MP: i64 = 32_000;

/// Half a grid cell, in milli-pixels.
pub const HALF_CELL_MP: i64 = 16_000;

/// Screen width in milli-pixels.
pub const SCREEN_W_MP: i64 = 640_000;

/// Largest valid horizontal pixel position of the actor, in milli-pixels
/// (screen width minus one cell).
pub const FROG_MAX_X_MP: i64 = 608_000;

/// Column the actor starts in (center of the grid).
pub const FROG_START_COL: i64 = 10;

/// Row the actor starts in (bottom row).
pub const FROG_START_ROW: i64 = 14;

/// Number of lives at the start of a game.
pub const INITIAL_LIVES: i64 = 3;

/// Number of goal slots in the top row.
pub const GOAL_COUNT: i64 = 5;

/// A goal claim is within reach when the actor's center is strictly closer
/// than this to the slot's center: eight tenths of a cell, in milli-pixels.
pub const GOAL_NEAR_MP: i64 = 25_600;

/// First river row.
pub const RIVER_START: i64 = 1;

/// Last river row.
pub const RIVER_END: i64 = 5;

/// First road row.
pub const ROAD_START: i64 = 7;

/// Last road row.
pub const ROAD_END: i64 = 12;

/// Largest elapsed time one tick accepts, in milliseconds.
pub const MAX_DT_MS: i64 = 1_000_000;

/// Largest speed a moving object may have, in pixels per second.
pub const MAX_SPEED_PX_S: i64 = 1_000;

/// Bound on the actor's riding offset that every reachable actor satisfies,
/// in milli-pixels.
pub const OFFSET_BOUND_MP: i64 = 2_000_000_000;

/// Bound on the riding offset of an actor in a game that is still running:
/// a little over one screen width either way, in milli-pixels.
pub const CALM_OFFSET_MP: i64 = 700_000;

} // verus!

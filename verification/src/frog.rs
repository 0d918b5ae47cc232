//! The player-controlled actor: a grid cell plus a sub-cell riding offset
//! that accumulates while a river platform carries it.

use vstd::prelude::*;

use crate::geom::Rect;
use crate::CALM_OFFSET_MP;
use crate::CELL_MP;
use crate::FROG_MAX_X_MP;
use crate::FROG_START_COL;
use crate::FROG_START_ROW;
use crate::GRID_COLS;
use crate::GRID_ROWS;
use crate::OFFSET_BOUND_MP;

verus! {

/// The actor. Its effective horizontal position is
/// `col * cell + riding_offset` milli-pixels.
#[derive(Clone, Copy, Debug, PartialEq, Eq, Structural)]
pub struct Frog {
    /// Grid column; the anchor the riding offset displaces from.
    pub col: i64,
    /// Grid row.
    pub row: i64,
    /// Sub-cell horizontal displacement in milli-pixels; zero whenever the
    /// actor is not riding a platform.
    pub riding_offset: i64,
    /// Whether a platform carried the actor on the last tick it stood in the
    /// river.
    pub is_riding: bool,
}

/// States that a frog value has exactly the given fields.
pub open spec fn frog_is(f: Frog, col: int, row: int, off: int, riding: bool) -> bool {
    &&& f.col == col
    &&& f.row == row
    &&& f.riding_offset == off
    &&& f.is_riding == riding
}

/// The frog the actor is reset to: start cell, no riding state.
pub open spec fn at_start(f: Frog) -> bool {
    frog_is(f, FROG_START_COL as int, FROG_START_ROW as int, 0, false)
}

/// A riding offset small enough for one more tick of drift; holds of every
/// actor in a game that is still running.
pub open spec fn frog_calm(f: Frog) -> bool {
    f.is_riding ==> -CALM_OFFSET_MP <= f.riding_offset <= CALM_OFFSET_MP
}

impl Frog {
    /// Well-formed: on the grid, offset zero when not riding and bounded
    /// always.
    pub open spec fn wf(self) -> bool {
        &&& 0 <= self.row < GRID_ROWS
        &&& 0 <= self.col < GRID_COLS
        &&& (!self.is_riding ==> self.riding_offset == 0)
        &&& -OFFSET_BOUND_MP <= self.riding_offset <= OFFSET_BOUND_MP
    }

    /// Effective horizontal position in milli-pixels.
    pub open spec fn pixel_x(self) -> int {
        self.col * CELL_MP + self.riding_offset
    }

    /// A new actor at the start cell.
    pub fn new() -> (r: Frog)
        ensures
            at_start(r),
            r.wf(),
    {
        Frog { col: FROG_START_COL, row: FROG_START_ROW, riding_offset: 0, is_riding: false }
    }

    /// Returns the actor to the start cell and clears all riding state.
    pub fn reset(&mut self)
        ensures
            at_start(*final(self)),
            final(self).wf(),
            final(self).riding_offset == 0,
    {
        self.col = FROG_START_COL;
        self.row = FROG_START_ROW;
        self.riding_offset = 0;
        self.is_riding = false;
    }

    /// Effective horizontal position in milli-pixels.
    pub fn get_pixel_x(&self) -> (r: i64)
        requires
            self.wf(),
        ensures
            r == self.pixel_x(),
    {
        self.col * CELL_MP + self.riding_offset
    }

    /// Vertical position in milli-pixels.
    pub fn get_pixel_y(&self) -> (r: i64)
        requires
            self.wf(),
        ensures
            r == self.row * CELL_MP,
    {
        self.row * CELL_MP
    }

    /// The actor's bounding box: one cell square at its effective position.
    pub fn get_rect(&self) -> (r: Rect)
        requires
            self.wf(),
        ensures
            r.x == self.pixel_x(),
            r.y == self.row * CELL_MP,
            r.w == CELL_MP,
            r.h == CELL_MP,
            r.in_bounds(),
    {
        Rect { x: self.get_pixel_x(), y: self.get_pixel_y(), w: CELL_MP, h: CELL_MP }
    }

    /// Moves one row up unless already in the top row; a move that happens
    /// clears the riding offset.
    pub fn move_up(&mut self)
        requires
            old(self).wf(),
        ensures
            final(self).wf(),
            old(self).row > 0 ==> frog_is(
                *final(self),
                old(self).col as int,
                old(self).row - 1,
                0,
                old(self).is_riding,
            ),
            old(self).row == 0 ==> *final(self) == *old(self),
    {
        if self.row > 0 {
            self.row = self.row - 1;
            self.riding_offset = 0;
        }
    }

    /// Moves one row down unless already in the bottom row; a move that
    /// happens clears the riding offset.
    pub fn move_down(&mut self)
        requires
            old(self).wf(),
        ensures
            final(self).wf(),
            old(self).row < GRID_ROWS - 1 ==> frog_is(
                *final(self),
                old(self).col as int,
                old(self).row + 1,
                0,
                old(self).is_riding,
            ),
            old(self).row == GRID_ROWS - 1 ==> *final(self) == *old(self),
    {
        if self.row < GRID_ROWS - 1 {
            self.row = self.row + 1;
            self.riding_offset = 0;
        }
    }

    /// Moves one cell left if that keeps the effective position on screen;
    /// while riding, the offset absorbs the move so the column stays anchored
    /// to the platform's frame. An out-of-range move is a silent no-op.
    pub fn move_left(&mut self)
        requires
            old(self).wf(),
        ensures
            final(self).wf(),
            old(self).pixel_x() - CELL_MP < 0 ==> *final(self) == *old(self),
            old(self).pixel_x() - CELL_MP >= 0 && old(self).is_riding ==> frog_is(
                *final(self),
                old(self).col as int,
                old(self).row as int,
                old(self).riding_offset - CELL_MP,
                true,
            ),
            old(self).pixel_x() - CELL_MP >= 0 && !old(self).is_riding ==> frog_is(
                *final(self),
                old(self).col - 1,
                old(self).row as int,
                0,
                false,
            ),
    {
        let new_x = self.get_pixel_x() - CELL_MP;
        if new_x >= 0 {
            if self.is_riding {
                self.riding_offset = self.riding_offset - CELL_MP;
            } else {
                self.col = self.col - 1;
            }
        }
    }

    /// Moves one cell right if the new effective position stays strictly
    /// inside the screen's rightmost cell bound; while riding, the offset
    /// absorbs the move. An out-of-range move is a silent no-op.
    pub fn move_right(&mut self)
        requires
            old(self).wf(),
        ensures
            final(self).wf(),
            old(self).pixel_x() + CELL_MP >= FROG_MAX_X_MP ==> *final(self) == *old(self),
            old(self).pixel_x() + CELL_MP < FROG_MAX_X_MP && old(self).is_riding ==> frog_is(
                *final(self),
                old(self).col as int,
                old(self).row as int,
                old(self).riding_offset + CELL_MP,
                true,
            ),
            old(self).pixel_x() + CELL_MP < FROG_MAX_X_MP && !old(self).is_riding ==> frog_is(
                *final(self),
                old(self).col + 1,
                old(self).row as int,
                0,
                false,
            ),
    {
        let new_x = self.get_pixel_x() + CELL_MP;
        if new_x < FROG_MAX_X_MP {
            if self.is_riding {
                self.riding_offset = self.riding_offset + CELL_MP;
            } else {
                self.col = self.col + 1;
            }
        }
    }
}

} // verus!


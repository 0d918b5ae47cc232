//! A single hazard or platform: a rectangle one cell tall that slides along
//! its row and wraps around the screen forever.

use vstd::prelude::*;

use crate::geom::Rect;
use crate::CELL_MP;
use crate::GRID_COLS;
use crate::GRID_ROWS;
use crate::MAX_DT_MS;
use crate::MAX_SPEED_PX_S;
use crate::SCREEN_W_MP;

verus! {

/// Which way an object slides along its row.
#[derive(Clone, Copy, Debug, PartialEq, Eq, Structural)]
pub enum Direction {
    Left,
    Right,
}

/// The sign a direction gives to a speed: left is negative, right positive.
pub open spec fn dir_sign(d: Direction) -> int {
    match d {
        Direction::Left => -1,
        Direction::Right => 1,
    }
}

impl Direction {
    /// The sign of this direction as an executable value.
    pub fn multiplier(&self) -> (r: i64)
        ensures
            r == dir_sign(*self),
    {
        match self {
            Direction::Left => -1,
            Direction::Right => 1,
        }
    }
}

/// The hue an object is drawn with; pure rendering data carried through the
/// simulation untouched.
#[derive(Clone, Copy, Debug, PartialEq, Eq, Structural)]
pub enum ObjColor {
    Red,
    Yellow,
    Blue,
    Purple,
    Orange,
    Maroon,
    Brown,
}

/// A moving hazard or platform. `x` is the left edge in milli-pixels; the row
/// never changes after creation.
#[derive(Clone, Copy, Debug, PartialEq, Eq, Structural)]
pub struct MovingObject {
    /// Left edge, in milli-pixels.
    pub x: i64,
    /// Grid row, fixed for the object's lifetime.
    pub row: i64,
    /// Width in grid cells.
    pub width: i64,
    /// Speed in pixels per second; never negative.
    pub speed: i64,
    /// Which way the object slides.
    pub direction: Direction,
    /// Rendering hue.
    pub color: ObjColor,
}

impl MovingObject {
    /// Width in milli-pixels.
    pub open spec fn width_mp(self) -> int {
        self.width * CELL_MP
    }

    /// Well-formed: plausible row, width and speed, and the left edge inside
    /// the wraparound band `[-width, screen width]`.
    pub open spec fn wf(self) -> bool {
        &&& 1 <= self.width <= GRID_COLS
        &&& 0 <= self.row < GRID_ROWS
        &&& 0 <= self.speed <= MAX_SPEED_PX_S
        &&& -self.width_mp() <= self.x <= SCREEN_W_MP
    }

    /// Where the left edge lands after moving for `dt` milliseconds, before
    /// any wraparound.
    pub open spec fn moved_x(self, dt: int) -> int {
        self.x + dir_sign(self.direction) * (self.speed * dt)
    }

    /// Where the left edge lands after moving for `dt` milliseconds and
    /// wrapping: an object that leaves the screen on its side of travel
    /// reappears just beyond the opposite edge.
    pub open spec fn stepped_x(self, dt: int) -> int {
        match self.direction {
            Direction::Right => {
                if self.moved_x(dt) > SCREEN_W_MP {
                    -self.width_mp()
                } else {
                    self.moved_x(dt)
                }
            },
            Direction::Left => {
                if self.moved_x(dt) + self.width_mp() < 0 {
                    SCREEN_W_MP as int
                } else {
                    self.moved_x(dt)
                }
            },
        }
    }

    /// Builds an object from its parts.
    pub fn new(x: i64, row: i64, width: i64, speed: i64, direction: Direction, color: ObjColor)
        -> (r: MovingObject)
        ensures
            r == (MovingObject { x, row, width, speed, direction, color }),
    {
        MovingObject { x, row, width, speed, direction, color }
    }

    /// Slides the object along its row for `dt` milliseconds and wraps it
    /// around the screen; only `x` changes, and it stays within
    /// `[-width, screen width]`.
    pub fn update(&mut self, dt_ms: i64)
        requires
            old(self).wf(),
            0 <= dt_ms <= MAX_DT_MS,
        ensures
            final(self).wf(),
            final(self).x == old(self).stepped_x(dt_ms as int),
            final(self).row == old(self).row,
            final(self).width == old(self).width,
            final(self).speed == old(self).speed,
            final(self).direction == old(self).direction,
            final(self).color == old(self).color,
    {
        let ghost sp: int = self.speed as int;
        proof {
            assert(0 <= sp * dt_ms <= 1_000_000_000) by (nonlinear_arith)
                requires
                    0 <= sp <= MAX_SPEED_PX_S,
                    0 <= dt_ms <= MAX_DT_MS,
            ;
        }
        let step: i64 = self.speed * dt_ms;
        let w_mp: i64 = self.width * CELL_MP;
        match self.direction {
            Direction::Right => {
                self.x = self.x + step;
                if self.x > SCREEN_W_MP {
                    self.x = -w_mp;
                }
            },
            Direction::Left => {
                self.x = self.x - step;
                if self.x + w_mp < 0 {
                    self.x = SCREEN_W_MP;
                }
            },
        }
    }

    /// The object's bounding box: one cell tall, `width` cells wide, at its
    /// current position.
    pub fn get_rect(&self) -> (r: Rect)
        requires
            self.wf(),
        ensures
            r.x == self.x,
            r.y == self.row * CELL_MP,
            r.w == self.width * CELL_MP,
            r.h == CELL_MP,
            r.in_bounds(),
    {
        Rect { x: self.x, y: self.row * CELL_MP, w: self.width * CELL_MP, h: CELL_MP }
    }
}

/// Law: wraparound never escapes its band. However long a well-formed object
/// moves, its left edge stays within `[-width, screen width]`, so repeated
/// ticks keep every object perpetually on its cycle.
pub proof fn lemma_wrap_stays_in_bounds(o: MovingObject, dt: int)
    requires
        o.wf(),
        dt >= 0,
    ensures
        -o.width_mp() <= o.stepped_x(dt) <= SCREEN_W_MP,
{
    assert(0 <= o.speed * dt) by (nonlinear_arith)
        requires
            0 <= o.speed,
            0 <= dt,
    ;
}

} // verus!

//! Classification of grid rows into lane kinds; fixed for the whole game.

use vstd::prelude::*;

use crate::RIVER_END;
use crate::RIVER_START;
use crate::ROAD_END;
use crate::ROAD_START;

verus! {

/// What a row holds: nothing, road hazards, river platforms, or goal slots.
#[derive(Clone, Copy, Debug, PartialEq, Eq, Structural)]
pub enum LaneType {
    Safe,
    Road,
    River,
    Goal,
}

/// True of the rows that hold road hazards.
pub open spec fn road_row(r: int) -> bool {
    ROAD_START <= r <= ROAD_END
}

/// True of the rows that hold river platforms.
pub open spec fn river_row(r: int) -> bool {
    RIVER_START <= r <= RIVER_END
}

/// The lane kind of a row: row zero is the goal row, then the river, a safe
/// strip, the road, and safe rows at the bottom.
pub open spec fn lane_type_of(row: int) -> LaneType {
    if row == 0 {
        LaneType::Goal
    } else if river_row(row) {
        LaneType::River
    } else if road_row(row) {
        LaneType::Road
    } else {
        LaneType::Safe
    }
}

/// Classifies a row; a pure function of the row index.
pub fn get_lane_type(row: i64) -> (r: LaneType)
    ensures
        r == lane_type_of(row as int),
{
    if row == 0 {
        LaneType::Goal
    } else if row >= RIVER_START && row <= RIVER_END {
        LaneType::River
    } else if row >= ROAD_START && row <= ROAD_END {
        LaneType::Road
    } else {
        LaneType::Safe
    }
}

} // verus!

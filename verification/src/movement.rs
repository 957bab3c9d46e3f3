//! Constant-speed interpolation of draw positions toward a target
//! cell, in millipixels. Entities walk cell to cell, so a draw
//! position always shares an axis with its target; a position that
//! does not (which no reachable state produces) is left where it is.

use vstd::prelude::*;
use crate::player::Direction;

verus! {

/// The distance of two positions that share an axis, in millipixels.
pub open spec fn axis_dist(pos: (u64, u64), tgt: (u64, u64)) -> int {
    if pos.0 == tgt.0 {
        if pos.1 >= tgt.1 {
            pos.1 - tgt.1
        } else {
            tgt.1 - pos.1
        }
    } else {
        if pos.0 >= tgt.0 {
            pos.0 - tgt.0
        } else {
            tgt.0 - pos.0
        }
    }
}

/// Whether one step of `step` millipixels reaches the target: the
/// positions share an axis and are within `step` of each other.
pub open spec fn within_step(pos: (u64, u64), tgt: (u64, u64), step: u64) -> bool {
    (pos.0 == tgt.0 || pos.1 == tgt.1) && axis_dist(pos, tgt) <= step
}

/// One coordinate moved toward its target by at most `step`.
pub open spec fn axis_step(p: u64, t: u64, step: u64) -> u64 {
    if p <= t {
        if t - p <= step {
            t
        } else {
            (p + step) as u64
        }
    } else {
        if p - t <= step {
            t
        } else {
            (p - step) as u64
        }
    }
}

/// The position after moving toward the target by at most `step`
/// millipixels along the shared axis.
pub open spec fn approach(pos: (u64, u64), tgt: (u64, u64), step: u64) -> (u64, u64) {
    if pos.0 == tgt.0 {
        (pos.0, axis_step(pos.1, tgt.1, step))
    } else if pos.1 == tgt.1 {
        (axis_step(pos.0, tgt.0, step), pos.1)
    } else {
        pos
    }
}

/// Whether one step of `step` millipixels reaches the target.
pub fn reaches_target(pos: (u64, u64), tgt: (u64, u64), step: u64) -> (r: bool)
    ensures
        r == within_step(pos, tgt, step),
{
    if pos.0 == tgt.0 {
        let d = if pos.1 >= tgt.1 {
            pos.1 - tgt.1
        } else {
            tgt.1 - pos.1
        };
        d <= step
    } else if pos.1 == tgt.1 {
        let d = if pos.0 >= tgt.0 {
            pos.0 - tgt.0
        } else {
            tgt.0 - pos.0
        };
        d <= step
    } else {
        false
    }
}

fn axis_step_exec(p: u64, t: u64, step: u64) -> (r: u64)
    ensures
        r == axis_step(p, t, step),
{
    if p <= t {
        if t - p <= step {
            t
        } else {
            p + step
        }
    } else {
        if p - t <= step {
            t
        } else {
            p - step
        }
    }
}

/// The position after moving toward the target by at most `step`
/// millipixels along the shared axis.
pub fn move_towards(pos: (u64, u64), tgt: (u64, u64), step: u64) -> (r: (u64, u64))
    ensures
        r == approach(pos, tgt, step),
{
    if pos.0 == tgt.0 {
        (pos.0, axis_step_exec(pos.1, tgt.1, step))
    } else if pos.1 == tgt.1 {
        (axis_step_exec(pos.0, tgt.0, step), pos.1)
    } else {
        pos
    }
}

/// The direction that the vector from `pos` to `tgt` resolves to, the
/// same way an input axis does with no previously dominant axis:
/// a diagonal resolves to its horizontal part, and a zero vector to
/// `Left`.
pub open spec fn dir_of_delta(pos: (u64, u64), tgt: (u64, u64)) -> Direction {
    if pos.0 != tgt.0 && pos.1 != tgt.1 {
        if tgt.0 < pos.0 {
            Direction::Left
        } else {
            Direction::Right
        }
    } else if tgt.0 < pos.0 {
        Direction::Left
    } else if tgt.0 > pos.0 {
        Direction::Right
    } else if tgt.1 < pos.1 {
        Direction::Up
    } else if tgt.1 > pos.1 {
        Direction::Down
    } else {
        Direction::Left
    }
}

/// The direction that the vector from `pos` to `tgt` resolves to.
pub fn direction_towards(pos: (u64, u64), tgt: (u64, u64)) -> (r: Direction)
    ensures
        r == dir_of_delta(pos, tgt),
{
    if pos.0 != tgt.0 && pos.1 != tgt.1 {
        if tgt.0 < pos.0 {
            Direction::Left
        } else {
            Direction::Right
        }
    } else if tgt.0 < pos.0 {
        Direction::Left
    } else if tgt.0 > pos.0 {
        Direction::Right
    } else if tgt.1 < pos.1 {
        Direction::Up
    } else if tgt.1 > pos.1 {
        Direction::Down
    } else {
        Direction::Left
    }
}

} // verus!

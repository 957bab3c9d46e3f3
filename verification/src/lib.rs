//! Core logic of a small tile-based narrative game: a script interpreter
//! driving non-player characters, grid movement with live pathfinding,
//! a player state machine, and the interaction/dialogue gate.
//!
//! All positions are kept in millipixels (one cell is 16 pixels, so
//! 16000 millipixels) and all times in milliseconds, so every frame
//! update is exact integer arithmetic. The presentation layer feeds in
//! the per-frame delta time, the raw input axis and the confirm edge,
//! and renders from the state and the frame outputs.

pub mod player;
pub mod tilemap;
pub mod anim;
pub mod pathfind;
pub mod characters;
pub mod movement;
pub mod game;
pub mod laws;

use vstd::prelude::*;

verus! {

/// Upper bound on grid coordinates, so that a coordinate scaled to
/// millipixels (16000 per cell) always fits in a `u64`.
pub const MAX_COORD: usize = 1_000_000_000;

/// One grid cell is 16 pixels, in millipixels.
pub const CELL_MILLIPX: u64 = 16000;

/// The pixel-space position of a cell coordinate, in millipixels.
pub open spec fn cell_px_spec(c: usize) -> u64 {
    (c * 16000) as u64
}

/// The pixel-space position of a cell coordinate, in millipixels.
pub fn cell_px(c: usize) -> (r: u64)
    requires
        c < MAX_COORD,
    ensures
        r == cell_px_spec(c),
        r as int == c as int * 16000,
{
    (c as u64) * 16000
}

/// Addition of two times in milliseconds, held at the `u64` limit so a
/// timer that runs for the program's whole life cannot wrap.
pub open spec fn sat_add_spec(a: u64, b: u64) -> u64 {
    if a + b > u64::MAX {
        u64::MAX
    } else {
        (a + b) as u64
    }
}

/// Addition of two times in milliseconds, held at the `u64` limit.
pub fn sat_add(a: u64, b: u64) -> (r: u64)
    ensures
        r == sat_add_spec(a, b),
{
    if b <= u64::MAX - a {
        a + b
    } else {
        u64::MAX
    }
}

} // verus!

//! The logic of a sonified two-paddle ball game, in fixed point: ball and
//! paddle physics (`pong`), the oscillators that voice the game (`audio`),
//! and the simulation driver's per-tick decisions together with the
//! latest-wins rule by which its channels are read (`game`).
use vstd::prelude::*;

pub mod audio;
pub mod game;
pub mod pong;

verus! {

/// Fixed-point scale: one arena unit, one phase cycle, one full-scale sample.
pub const SCALE: i64 = 1_000_000;

} // verus!

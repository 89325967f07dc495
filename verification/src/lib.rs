//! Core of a two-paddle ball game: paddle motion with clamping, ball
//! motion with wall bounce, paddle collision and scoring, and the
//! start/play state machine that gates the simulation.
//!
//! All geometry is integer fixed-point: positions are measured in
//! milliunits (one thousandth of a screen unit), velocities in
//! milliunits per millisecond (numerically equal to screen units per
//! second), and frame times in milliseconds.

pub mod ball;
pub mod config;
pub mod game;
pub mod paddle;
mod rng;

use vstd::prelude::*;

verus! {

/// `v` pulled into the interval `[lo, hi]`.
pub open spec fn clamped(v: int, lo: int, hi: int) -> int {
    if v < lo {
        lo
    } else if v > hi {
        hi
    } else {
        v
    }
}

} // verus!

//! One player's paddle: a rectangle that moves vertically at a set
//! velocity and is clamped to the playfield after every step.

use crate::clamped;
use crate::config::{DT_MAX, POS_LIMIT, VEL_LIMIT};
use vstd::prelude::*;

verus! {

/// Which edge of the playfield the paddle defends.
#[derive(Clone, Copy, PartialEq, Eq, Structural, Debug)]
pub enum PaddleDirection {
    LEFT,
    RIGHT,
}

/// A paddle. Distances are milliunits, velocities milliunits per
/// millisecond.
#[derive(Clone, Copy, PartialEq, Eq, Structural, Debug)]
pub struct Paddle {
    /// Left edge; fixed for the paddle's lifetime.
    pub x: i64,
    /// Top edge; moves every frame.
    pub y: i64,
    /// Width, fixed.
    pub width: i64,
    /// Height, fixed.
    pub height: i64,
    /// Current vertical velocity.
    pub dy: i64,
    /// Playfield width.
    pub max_x: i64,
    /// Playfield height; `y` is kept within `[0, max_y - height]`.
    pub max_y: i64,
    /// The edge this paddle defends.
    pub direction: PaddleDirection,
}

impl Paddle {
    /// Well-formed: the paddle fits the playfield, sits inside it,
    /// and all magnitudes are within the engine's working ranges.
    pub open spec fn wf(self) -> bool {
        &&& 0 < self.width <= POS_LIMIT
        &&& 0 < self.height <= self.max_y
        &&& 0 <= self.max_x <= POS_LIMIT
        &&& 0 < self.max_y <= POS_LIMIT
        &&& 0 <= self.x <= self.max_x
        &&& 0 <= self.y <= self.max_y - self.height
        &&& -VEL_LIMIT <= self.dy <= VEL_LIMIT
    }

    /// Constructs a paddle at rest. The caller guarantees sane bounds;
    /// no further validation is done.
    pub fn new(
        x: i64,
        y: i64,
        width: i64,
        height: i64,
        max_x: i64,
        max_y: i64,
        direction: PaddleDirection,
    ) -> (p: Paddle)
        requires
            0 < width <= POS_LIMIT,
            0 < height <= max_y,
            0 <= max_x <= POS_LIMIT,
            0 < max_y <= POS_LIMIT,
            0 <= x <= max_x,
            0 <= y <= max_y - height,
        ensures
            p == (Paddle { x, y, width, height, dy: 0i64, max_x, max_y, direction }),
            p.wf(),
    {
        Paddle { x, y, width, height, dy: 0, max_x, max_y, direction }
    }

    /// Advances `y` by `dy * dt` and clamps it back into
    /// `[0, max_y - height]`. Nothing else changes.
    pub fn update(&mut self, dt: u64)
        requires
            old(self).wf(),
            dt <= DT_MAX,
        ensures
            final(self).y == clamped(
                old(self).y + old(self).dy * dt,
                0,
                old(self).max_y - old(self).height,
            ),
            0 <= final(self).y <= final(self).max_y - final(self).height,
            *final(self) == (Paddle { y: final(self).y, ..*old(self) }),
            final(self).wf(),
    {
        proof {
            assert(-1_000_000_000_000_000_000 <= self.dy * (dt as i64)
                <= 1_000_000_000_000_000_000) by (nonlinear_arith)
                requires
                    -VEL_LIMIT <= self.dy <= VEL_LIMIT,
                    0 <= dt as i64 <= DT_MAX as i64,
            ;
        }
        let step: i64 = self.dy * (dt as i64);
        let mut ny: i64 = self.y + step;
        let top: i64 = self.max_y - self.height;
        if ny < 0 {
            ny = 0;
        } else if ny > top {
            ny = top;
        }
        self.y = ny;
    }

    /// Sets the vertical velocity; side-effect-free otherwise.
    pub fn set_dy(&mut self, dy: i64)
        requires
            -VEL_LIMIT <= dy <= VEL_LIMIT,
        ensures
            *final(self) == (Paddle { dy, ..*old(self) }),
    {
        self.dy = dy;
    }
}

} // verus!

//! Engine configuration: playfield dimensions, entity sizes and the
//! physics tuning constants, all supplied once at match construction.

use vstd::prelude::*;

verus! {

/// Largest coordinate magnitude the engine works with, in milliunits.
/// Every position is kept inside `[-POS_LIMIT, POS_LIMIT]`.
pub const POS_LIMIT: i64 = 1_000_000_000_000_000;

/// Largest velocity magnitude the engine works with, in milliunits
/// per millisecond. Paddle hits amplify the ball's horizontal speed
/// without any gameplay cap; this bound only keeps the arithmetic
/// inside `i64`.
pub const VEL_LIMIT: i64 = 1_000_000_000;

/// Largest frame time accepted, in milliseconds.
pub const DT_MAX: u64 = 1_000_000_000;

/// All tuning constants of the simulation. Distances are milliunits,
/// velocities milliunits per millisecond.
#[derive(Clone, Copy, PartialEq, Eq, Structural, Debug)]
pub struct Config {
    /// Playfield width.
    pub max_x: i64,
    /// Playfield height.
    pub max_y: i64,
    /// Paddle width.
    pub paddle_width: i64,
    /// Paddle height.
    pub paddle_height: i64,
    /// Horizontal inset of each paddle from its own edge.
    pub paddle_margin_x: i64,
    /// Vertical inset of the paddles' starting positions.
    pub paddle_margin_y: i64,
    /// Ball width.
    pub ball_width: i64,
    /// Ball height.
    pub ball_height: i64,
    /// Speed given to a paddle while an input intent is active.
    pub paddle_speed: i64,
    /// Horizontal speed of a fresh serve.
    pub serve_speed: i64,
    /// Lower end (inclusive) of the vertical speed drawn on a serve.
    pub serve_dy_min: i64,
    /// Upper end (exclusive) of the vertical speed drawn on a serve.
    pub serve_dy_max: i64,
    /// Lower end (inclusive) of the vertical speed magnitude drawn on
    /// a paddle hit.
    pub rally_dy_min: i64,
    /// Upper end (exclusive) of the vertical speed magnitude drawn on
    /// a paddle hit.
    pub rally_dy_max: i64,
    /// Numerator of the factor by which a paddle hit amplifies the
    /// ball's horizontal speed.
    pub amp_num: i64,
    /// Denominator of that factor.
    pub amp_den: i64,
    /// Numerator of the factor of the paddle width by which a hit
    /// pushes the ball away from the paddle.
    pub nudge_num: i64,
    /// Denominator of that factor.
    pub nudge_den: i64,
}

impl Config {
    /// A configuration the engine can run with: everything in range,
    /// the paddles and the ball fit the playfield, and the
    /// amplification factor is above one by enough that it grows any
    /// speed from the serve speed upward.
    pub open spec fn valid(self) -> bool {
        &&& 0 < self.max_x <= POS_LIMIT
        &&& 0 < self.max_y <= POS_LIMIT
        &&& 0 < self.paddle_width <= self.max_x
        &&& 0 < self.paddle_height <= self.max_y
        &&& 0 <= self.paddle_margin_x <= self.max_x
        &&& self.paddle_height <= self.paddle_margin_y <= self.max_y - self.paddle_height
        &&& 0 < self.ball_width <= self.max_x
        &&& 0 < self.ball_height <= self.max_y
        &&& 0 < self.paddle_speed <= VEL_LIMIT
        &&& 0 < self.serve_speed <= VEL_LIMIT
        &&& -VEL_LIMIT <= self.serve_dy_min < self.serve_dy_max <= VEL_LIMIT
        &&& 0 < self.rally_dy_min < self.rally_dy_max <= VEL_LIMIT
        &&& 0 < self.amp_den < self.amp_num <= 1000
        &&& self.serve_speed * (self.amp_num - self.amp_den) >= self.amp_den
        &&& 0 < self.nudge_den <= self.nudge_num <= 1000
    }

    /// The standard playfield: 412 by 240 units, 5 by 20 unit paddles
    /// inset 10 by 30 units, a 4 by 4 unit ball, paddle speed 200
    /// units per second, serves at 100 units per second with a
    /// vertical spread of up to 75, hits amplifying speed by 103/100,
    /// redrawing the vertical speed from [10, 150) and pushing the
    /// ball out by 13/10 of the paddle width.
    pub fn standard() -> (c: Config)
        ensures
            c.valid(),
            c == (Config {
                max_x: 412_000i64,
                max_y: 240_000i64,
                paddle_width: 5_000i64,
                paddle_height: 20_000i64,
                paddle_margin_x: 10_000i64,
                paddle_margin_y: 30_000i64,
                ball_width: 4_000i64,
                ball_height: 4_000i64,
                paddle_speed: 200i64,
                serve_speed: 100i64,
                serve_dy_min: -75i64,
                serve_dy_max: 75i64,
                rally_dy_min: 10i64,
                rally_dy_max: 150i64,
                amp_num: 103i64,
                amp_den: 100i64,
                nudge_num: 13i64,
                nudge_den: 10i64,
            }),
    {
        Config {
            max_x: 412_000,
            max_y: 240_000,
            paddle_width: 5_000,
            paddle_height: 20_000,
            paddle_margin_x: 10_000,
            paddle_margin_y: 30_000,
            ball_width: 4_000,
            ball_height: 4_000,
            paddle_speed: 200,
            serve_speed: 100,
            serve_dy_min: -75,
            serve_dy_max: 75,
            rally_dy_min: 10,
            rally_dy_max: 150,
            amp_num: 103,
            amp_den: 100,
            nudge_num: 13,
            nudge_den: 10,
        }
    }
}

} // verus!

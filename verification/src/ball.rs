//! The ball: position integration, wall bounce, paddle deflection
//! with speed amplification, out-of-bounds detection, and the serve
//! protocol with its direction bias.

use crate::clamped;
use crate::config::{Config, DT_MAX, POS_LIMIT, VEL_LIMIT};
use crate::paddle::{Paddle, PaddleDirection};
use crate::rng::{rand_coin, rand_i64_in};
use vstd::arithmetic::div_mod::{
    lemma_div_by_multiple, lemma_div_is_ordered, lemma_div_nonincreasing, lemma_div_pos_is_pos,
};
use vstd::math::abs;
use vstd::prelude::*;

verus! {

/// Which side boundary the ball has left through, if any.
#[derive(Clone, Copy, PartialEq, Eq, Structural, Debug)]
pub enum BallOutDirection {
    LEFT,
    RIGHT,
    NONE,
}

/// The ball. Distances are milliunits, velocities milliunits per
/// millisecond.
#[derive(Clone, Copy, PartialEq, Eq, Structural, Debug)]
pub struct Ball {
    /// Left edge.
    pub x: i64,
    /// Top edge.
    pub y: i64,
    /// Width, fixed.
    pub width: i64,
    /// Height, fixed.
    pub height: i64,
    /// Horizontal velocity; its sign alternates on paddle hits and
    /// its magnitude only grows during a rally.
    pub dx: i64,
    /// Vertical velocity.
    pub dy: i64,
}

/// Axis-aligned bounding-box overlap between ball and paddle,
/// inclusive on all four sides.
pub open spec fn overlaps(b: Ball, p: Paddle) -> bool {
    &&& b.x <= p.x + p.width
    &&& b.x + b.width >= p.x
    &&& b.y <= p.y + p.height
    &&& b.y + b.height >= p.y
}

/// The ball after one integration step: each coordinate advances by
/// velocity times elapsed time and is pulled back into the engine's
/// coordinate range.
pub open spec fn spec_moved(b: Ball, dt: u64) -> Ball {
    Ball {
        x: clamped(b.x + b.dx * dt, -(POS_LIMIT as int), POS_LIMIT as int) as i64,
        y: clamped(b.y + b.dy * dt, -(POS_LIMIT as int), POS_LIMIT as int) as i64,
        ..b
    }
}

/// The ball after the wall rule: touching or passing the top or
/// bottom boundary flips the vertical velocity.
pub open spec fn spec_bounced(b: Ball, max_y: i64) -> Ball {
    if b.y <= 0 || b.y >= max_y {
        Ball { dy: (-b.dy) as i64, ..b }
    } else {
        b
    }
}

/// The horizontal velocity after a paddle hit: reversed, and its
/// magnitude grown by `amp_num / amp_den` (capped at the engine's
/// velocity range).
pub open spec fn amped_dx(dx: i64, cfg: Config) -> int {
    let grown = abs(dx as int) * cfg.amp_num / (cfg.amp_den as int);
    let capped = if grown > VEL_LIMIT as int {
        VEL_LIMIT as int
    } else {
        grown
    };
    if dx > 0 {
        -capped
    } else {
        capped
    }
}

/// How far a hit pushes the ball away from the paddle.
pub open spec fn nudge_len(p: Paddle, cfg: Config) -> int {
    p.width * cfg.nudge_num / (cfg.nudge_den as int)
}

/// The ball's horizontal position after a paddle hit: pushed away
/// from the edge the paddle defends, and pulled back into the
/// engine's coordinate range.
pub open spec fn nudged_x(x: i64, p: Paddle, cfg: Config) -> int {
    let moved = if p.direction == PaddleDirection::LEFT {
        x + nudge_len(p, cfg)
    } else {
        x - nudge_len(p, cfg)
    };
    clamped(moved, -(POS_LIMIT as int), POS_LIMIT as int)
}

/// The ball after the deflection rule against one paddle, given the
/// freshly drawn vertical speed magnitude `dy_mag`: on overlap the
/// horizontal velocity is reversed and amplified, the ball is nudged
/// past the paddle, and the vertical velocity is redrawn keeping its
/// sign; with no overlap nothing changes.
pub open spec fn spec_collided(b: Ball, p: Paddle, cfg: Config, dy_mag: i64) -> Ball {
    if overlaps(b, p) {
        Ball {
            x: nudged_x(b.x, p, cfg) as i64,
            dx: amped_dx(b.dx, cfg) as i64,
            dy: if b.dy < 0 {
                (-dy_mag) as i64
            } else {
                dy_mag
            },
            ..b
        }
    } else {
        b
    }
}

/// The serve direction: toward the side the ball last exited through,
/// or by coin flip when no side is known.
pub open spec fn serve_dx(direction: BallOutDirection, serve_right: bool, cfg: Config) -> i64 {
    match direction {
        BallOutDirection::LEFT => (-cfg.serve_speed) as i64,
        BallOutDirection::RIGHT => cfg.serve_speed,
        BallOutDirection::NONE => if serve_right {
            cfg.serve_speed
        } else {
            (-cfg.serve_speed) as i64
        },
    }
}

/// The ball after a re-serve: recentered, the horizontal velocity at
/// serve speed toward the biased side, the vertical velocity `dy`
/// freshly drawn.
pub open spec fn spec_reset(
    b: Ball,
    screen_width: i64,
    screen_height: i64,
    direction: BallOutDirection,
    cfg: Config,
    serve_right: bool,
    dy: i64,
) -> Ball {
    Ball {
        x: ((screen_width - b.width) / 2) as i64,
        y: ((screen_height - b.height) / 2) as i64,
        dx: serve_dx(direction, serve_right, cfg),
        dy,
        ..b
    }
}

/// The out-of-bounds outcome for a ball at `x`: out left once fully
/// past the left boundary, out right once past the right one.
pub open spec fn spec_check_out(x: int, width: int, max_x: int) -> BallOutDirection {
    if x <= -width {
        BallOutDirection::LEFT
    } else if x > max_x {
        BallOutDirection::RIGHT
    } else {
        BallOutDirection::NONE
    }
}

impl Ball {
    /// All magnitudes within the engine's working ranges.
    pub open spec fn bounded(self) -> bool {
        &&& -POS_LIMIT <= self.x <= POS_LIMIT
        &&& -POS_LIMIT <= self.y <= POS_LIMIT
        &&& 0 < self.width <= POS_LIMIT
        &&& 0 < self.height <= POS_LIMIT
        &&& -VEL_LIMIT <= self.dx <= VEL_LIMIT
        &&& -VEL_LIMIT <= self.dy <= VEL_LIMIT
    }

    /// Well-formed under `cfg`: bounded, and moving horizontally at
    /// least at serve speed (hits only amplify it).
    pub open spec fn wf(self, cfg: Config) -> bool {
        &&& self.bounded()
        &&& cfg.serve_speed <= abs(self.dx as int)
    }

    /// Constructs a ball with the given serve already chosen:
    /// horizontal velocity at serve speed toward `serve_right`'s
    /// side, vertical velocity `dy`.
    pub fn new_with(
        x: i64,
        y: i64,
        width: i64,
        height: i64,
        cfg: &Config,
        serve_right: bool,
        dy: i64,
    ) -> (b: Ball)
        requires
            -POS_LIMIT <= x <= POS_LIMIT,
            -POS_LIMIT <= y <= POS_LIMIT,
            0 < width <= POS_LIMIT,
            0 < height <= POS_LIMIT,
            cfg.valid(),
            cfg.serve_dy_min <= dy < cfg.serve_dy_max,
        ensures
            b == (Ball {
                x,
                y,
                width,
                height,
                dx: serve_dx(BallOutDirection::NONE, serve_right, *cfg),
                dy,
            }),
            b.wf(*cfg),
    {
        let dx: i64 = if serve_right {
            cfg.serve_speed
        } else {
            -cfg.serve_speed
        };
        Ball { x, y, width, height, dx, dy }
    }

    /// Constructs a ball with a random serve: the horizontal
    /// direction a coin flip at serve speed, the vertical velocity
    /// drawn from the serve range.
    pub fn new(x: i64, y: i64, width: i64, height: i64, cfg: &Config) -> (b: Ball)
        requires
            -POS_LIMIT <= x <= POS_LIMIT,
            -POS_LIMIT <= y <= POS_LIMIT,
            0 < width <= POS_LIMIT,
            0 < height <= POS_LIMIT,
            cfg.valid(),
        ensures
            b.x == x,
            b.y == y,
            b.width == width,
            b.height == height,
            b.dx == cfg.serve_speed || b.dx == -cfg.serve_speed,
            cfg.serve_dy_min <= b.dy < cfg.serve_dy_max,
            b.wf(*cfg),
    {
        let serve_right = rand_coin();
        let dy = rand_i64_in(cfg.serve_dy_min, cfg.serve_dy_max);
        Self::new_with(x, y, width, height, cfg, serve_right, dy)
    }

    /// One integration step over `dt` milliseconds.
    pub fn update(&mut self, dt: u64)
        requires
            old(self).bounded(),
            dt <= DT_MAX,
        ensures
            *final(self) == spec_moved(*old(self), dt),
            final(self).bounded(),
    {
        proof {
            assert(-1_000_000_000_000_000_000 <= self.dx * (dt as i64)
                <= 1_000_000_000_000_000_000) by (nonlinear_arith)
                requires
                    -VEL_LIMIT <= self.dx <= VEL_LIMIT,
                    0 <= dt as i64 <= DT_MAX as i64,
            ;
            assert(-1_000_000_000_000_000_000 <= self.dy * (dt as i64)
                <= 1_000_000_000_000_000_000) by (nonlinear_arith)
                requires
                    -VEL_LIMIT <= self.dy <= VEL_LIMIT,
                    0 <= dt as i64 <= DT_MAX as i64,
            ;
        }
        let mut nx: i64 = self.x + self.dx * (dt as i64);
        if nx < -POS_LIMIT {
            nx = -POS_LIMIT;
        } else if nx > POS_LIMIT {
            nx = POS_LIMIT;
        }
        let mut ny: i64 = self.y + self.dy * (dt as i64);
        if ny < -POS_LIMIT {
            ny = -POS_LIMIT;
        } else if ny > POS_LIMIT {
            ny = POS_LIMIT;
        }
        self.x = nx;
        self.y = ny;
    }

    /// The wall rule: flips the vertical velocity when the ball
    /// touches or passes the top or bottom boundary. Checked every
    /// simulated frame, independently of paddle collisions.
    pub fn bounce(&mut self, max_y: i64)
        requires
            old(self).bounded(),
        ensures
            *final(self) == spec_bounced(*old(self), max_y),
            final(self).bounded(),
    {
        if self.y <= 0 || self.y >= max_y {
            self.dy = -self.dy;
        }
    }

    /// The deflection rule against one paddle, with the redrawn
    /// vertical speed magnitude supplied by the caller.
    pub fn collides_with(&mut self, paddle: &Paddle, cfg: &Config, dy_mag: i64)
        requires
            old(self).wf(*cfg),
            paddle.wf(),
            cfg.valid(),
            cfg.rally_dy_min <= dy_mag < cfg.rally_dy_max,
        ensures
            *final(self) == spec_collided(*old(self), *paddle, *cfg, dy_mag),
            final(self).wf(*cfg),
    {
        if self.x <= paddle.x + paddle.width && self.x + self.width >= paddle.x
            && self.y <= paddle.y + paddle.height && self.y + self.height >= paddle.y {
            let was_positive = self.dx > 0;
            let m: i64 = if self.dx >= 0 {
                self.dx
            } else {
                -self.dx
            };
            proof {
                assert(0 <= m * cfg.amp_num <= 1_000_000_000_000) by (nonlinear_arith)
                    requires
                        0 <= m <= VEL_LIMIT,
                        0 < cfg.amp_num <= 1000,
                ;
                lemma_div_pos_is_pos(m * cfg.amp_num, cfg.amp_den as int);
                lemma_div_nonincreasing(m * cfg.amp_num, cfg.amp_den as int);
                assert(m * cfg.amp_den <= m * cfg.amp_num) by (nonlinear_arith)
                    requires
                        0 <= m,
                        cfg.amp_den <= cfg.amp_num,
                ;
                lemma_div_is_ordered(m * cfg.amp_den, m * cfg.amp_num, cfg.amp_den as int);
                lemma_div_by_multiple(m as int, cfg.amp_den as int);
            }
            let grown: i64 = (m * cfg.amp_num) / cfg.amp_den;
            let capped: i64 = if grown > VEL_LIMIT {
                VEL_LIMIT
            } else {
                grown
            };
            self.dx = if was_positive {
                -capped
            } else {
                capped
            };
            proof {
                assert(0 <= paddle.width * cfg.nudge_num <= 1_000_000_000_000_000_000)
                    by (nonlinear_arith)
                    requires
                        0 <= paddle.width <= POS_LIMIT,
                        0 < cfg.nudge_num <= 1000,
                ;
                lemma_div_pos_is_pos(paddle.width * cfg.nudge_num, cfg.nudge_den as int);
                lemma_div_nonincreasing(paddle.width * cfg.nudge_num, cfg.nudge_den as int);
            }
            let n: i64 = (paddle.width * cfg.nudge_num) / cfg.nudge_den;
            let moved: i64 = if matches!(paddle.direction, PaddleDirection::LEFT) {
                self.x + n
            } else {
                self.x - n
            };
            self.x = if moved < -POS_LIMIT {
                -POS_LIMIT
            } else if moved > POS_LIMIT {
                POS_LIMIT
            } else {
                moved
            };
            self.dy = if self.dy < 0 {
                -dy_mag
            } else {
                dy_mag
            };
        }
    }

    /// The deflection rule against one paddle, drawing the vertical
    /// speed magnitude from the rally range. On overlap the
    /// horizontal velocity is reversed and amplified, the ball is
    /// nudged past the paddle, and the vertical velocity keeps its
    /// sign with a magnitude in the rally range; with no overlap
    /// nothing changes.
    pub fn collides(&mut self, paddle: &Paddle, cfg: &Config)
        requires
            old(self).wf(*cfg),
            paddle.wf(),
            cfg.valid(),
        ensures
            !overlaps(*old(self), *paddle) ==> *final(self) == *old(self),
            overlaps(*old(self), *paddle) ==> {
                &&& final(self).x == nudged_x(old(self).x, *paddle, *cfg)
                &&& final(self).dx == amped_dx(old(self).dx, *cfg)
                &&& (old(self).dy < 0 ==> -cfg.rally_dy_max < final(self).dy <= -cfg.rally_dy_min)
                &&& (old(self).dy >= 0 ==> cfg.rally_dy_min <= final(self).dy < cfg.rally_dy_max)
                &&& final(self).y == old(self).y
                &&& final(self).width == old(self).width
                &&& final(self).height == old(self).height
            },
            final(self).wf(*cfg),
    {
        let dy_mag = rand_i64_in(cfg.rally_dy_min, cfg.rally_dy_max);
        self.collides_with(paddle, cfg, dy_mag);
    }

    /// Reports which side boundary the ball is out past, if any. A
    /// pure query: out left once fully past the left edge, out right
    /// once past the right edge.
    pub fn check_out(&self, max_x: i64) -> (r: BallOutDirection)
        requires
            self.bounded(),
        ensures
            r == spec_check_out(self.x as int, self.width as int, max_x as int),
    {
        if self.x <= -self.width {
            BallOutDirection::LEFT
        } else if self.x > max_x {
            BallOutDirection::RIGHT
        } else {
            BallOutDirection::NONE
        }
    }

    /// Recenters the ball and serves again with the direction already
    /// chosen: toward the side it exited through, or toward
    /// `serve_right`'s side when no side is known; `dy` is the fresh
    /// vertical velocity.
    pub fn reset_with(
        &mut self,
        screen_width: i64,
        screen_height: i64,
        direction: BallOutDirection,
        cfg: &Config,
        serve_right: bool,
        dy: i64,
    )
        requires
            old(self).bounded(),
            0 < screen_width <= POS_LIMIT,
            0 < screen_height <= POS_LIMIT,
            old(self).width <= screen_width,
            old(self).height <= screen_height,
            cfg.valid(),
            cfg.serve_dy_min <= dy < cfg.serve_dy_max,
        ensures
            *final(self) == spec_reset(
                *old(self),
                screen_width,
                screen_height,
                direction,
                *cfg,
                serve_right,
                dy,
            ),
            final(self).wf(*cfg),
    {
        proof {
            lemma_div_pos_is_pos(screen_width - self.width, 2);
            lemma_div_nonincreasing(screen_width - self.width, 2);
            lemma_div_pos_is_pos(screen_height - self.height, 2);
            lemma_div_nonincreasing(screen_height - self.height, 2);
        }
        self.x = (screen_width - self.width) / 2;
        self.y = (screen_height - self.height) / 2;
        self.dx = match direction {
            BallOutDirection::LEFT => -cfg.serve_speed,
            BallOutDirection::RIGHT => cfg.serve_speed,
            BallOutDirection::NONE => if serve_right {
                cfg.serve_speed
            } else {
                -cfg.serve_speed
            },
        };
        self.dy = dy;
    }

    /// Recenters the ball and serves again: toward the side it exited
    /// through, or by coin flip when no side is known; the vertical
    /// velocity is drawn from the serve range.
    pub fn reset(
        &mut self,
        screen_width: i64,
        screen_height: i64,
        direction: BallOutDirection,
        cfg: &Config,
    )
        requires
            old(self).bounded(),
            0 < screen_width <= POS_LIMIT,
            0 < screen_height <= POS_LIMIT,
            old(self).width <= screen_width,
            old(self).height <= screen_height,
            cfg.valid(),
        ensures
            final(self).x == (screen_width - old(self).width) / 2,
            final(self).y == (screen_height - old(self).height) / 2,
            final(self).width == old(self).width,
            final(self).height == old(self).height,
            direction == BallOutDirection::LEFT ==> final(self).dx == -cfg.serve_speed,
            direction == BallOutDirection::RIGHT ==> final(self).dx == cfg.serve_speed,
            final(self).dx == cfg.serve_speed || final(self).dx == -cfg.serve_speed,
            cfg.serve_dy_min <= final(self).dy < cfg.serve_dy_max,
            final(self).wf(*cfg),
    {
        let serve_right = rand_coin();
        let dy = rand_i64_in(cfg.serve_dy_min, cfg.serve_dy_max);
        self.reset_with(screen_width, screen_height, direction, cfg, serve_right, dy);
    }
}

/// The wall rule is an involution: applied twice to an unmoved ball
/// it restores the ball, and in particular flips the vertical
/// velocity's sign exactly twice at a boundary.
pub proof fn lemma_bounce_twice(b: Ball, max_y: i64)
    requires
        -VEL_LIMIT <= b.dy <= VEL_LIMIT,
    ensures
        spec_bounced(spec_bounced(b, max_y), max_y) == b,
{
}

/// The out-of-bounds test partitions the axis of horizontal positions
/// into three disjoint outcomes with no gap.
pub proof fn lemma_check_out_partition(x: int, width: int, max_x: int)
    requires
        0 < width,
        0 <= max_x,
    ensures
        spec_check_out(x, width, max_x) == BallOutDirection::LEFT <==> x <= -width,
        spec_check_out(x, width, max_x) == BallOutDirection::RIGHT <==> x > max_x,
        spec_check_out(x, width, max_x) == BallOutDirection::NONE <==> -width < x <= max_x,
{
}

/// A deflection strictly amplifies the horizontal speed and flips its
/// direction whenever ball and paddle overlap — as long as the grown
/// speed stays within the engine's velocity range — and changes the
/// ball not at all when they do not overlap.
pub proof fn lemma_collision_amplifies(b: Ball, p: Paddle, cfg: Config, dy_mag: i64)
    requires
        b.wf(cfg),
        cfg.valid(),
        abs(b.dx as int) * cfg.amp_num / (cfg.amp_den as int) <= VEL_LIMIT,
    ensures
        overlaps(b, p) ==> abs(spec_collided(b, p, cfg, dy_mag).dx as int) > abs(b.dx as int),
        overlaps(b, p) ==> (b.dx > 0 <==> spec_collided(b, p, cfg, dy_mag).dx < 0),
        !overlaps(b, p) ==> spec_collided(b, p, cfg, dy_mag) == b,
{
    let m = abs(b.dx as int) as int;
    assert(m * (cfg.amp_num - cfg.amp_den) >= cfg.serve_speed * (cfg.amp_num - cfg.amp_den))
        by (nonlinear_arith)
        requires
            m >= cfg.serve_speed,
            cfg.amp_num > cfg.amp_den,
    ;
    assert((m + 1) * cfg.amp_den <= m * cfg.amp_num) by (nonlinear_arith)
        requires
            m * (cfg.amp_num - cfg.amp_den) >= cfg.amp_den,
    ;
    lemma_div_is_ordered((m + 1) * cfg.amp_den, m * cfg.amp_num, cfg.amp_den as int);
    lemma_div_by_multiple(m + 1, cfg.amp_den as int);
    lemma_div_pos_is_pos(m * cfg.amp_num, cfg.amp_den as int);
}

} // verus!

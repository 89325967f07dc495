//! The match: two paddles, one ball, two scores, and the start/play
//! state machine that gates the simulation. One `update` call is one
//! frame.

use crate::ball::{
    spec_bounced, spec_check_out, spec_collided, spec_moved, spec_reset, Ball, BallOutDirection,
};
use crate::clamped;
use crate::config::{Config, DT_MAX};
use crate::paddle::{Paddle, PaddleDirection};
use crate::rng::{rand_coin, rand_i64_in};
use vstd::arithmetic::div_mod::{lemma_div_nonincreasing, lemma_div_pos_is_pos};
use vstd::prelude::*;

verus! {

/// The two phases of a match. In `Start` the ball is frozen and only
/// the paddles move; in `Play` the full simulation runs.
#[derive(Clone, Copy, PartialEq, Eq, Structural, Debug)]
pub enum GameState {
    Start,
    Play,
}

/// The directional input intents of one frame, each present or
/// absent.
#[derive(Clone, Copy, PartialEq, Eq, Structural, Debug)]
pub struct Intents {
    /// Left player's up intent.
    pub p1_up: bool,
    /// Left player's down intent.
    pub p1_down: bool,
    /// Right player's up intent.
    pub p2_up: bool,
    /// Right player's down intent.
    pub p2_down: bool,
}

/// Everything one frame may draw from the random source: the redrawn
/// vertical speed magnitude for a hit on either paddle, and the
/// vertical velocity of a re-serve.
#[derive(Clone, Copy, PartialEq, Eq, Structural, Debug)]
pub struct FrameDraws {
    /// Vertical speed magnitude used if the ball hits the left paddle.
    pub rally_dy_1: i64,
    /// Vertical speed magnitude used if the ball hits the right paddle.
    pub rally_dy_2: i64,
    /// Vertical velocity used if the ball is re-served.
    pub serve_dy: i64,
}

impl FrameDraws {
    /// Each draw lies in the range it was drawn from.
    pub open spec fn wf(self, cfg: Config) -> bool {
        &&& cfg.rally_dy_min <= self.rally_dy_1 < cfg.rally_dy_max
        &&& cfg.rally_dy_min <= self.rally_dy_2 < cfg.rally_dy_max
        &&& cfg.serve_dy_min <= self.serve_dy < cfg.serve_dy_max
    }
}

/// The paddle velocity an input intent pair maps to. When both
/// intents are active at once, up takes precedence (the two are
/// resolved in that order, deliberately).
pub open spec fn intent_dy(up: bool, down: bool, speed: i64) -> i64 {
    if up {
        (-speed) as i64
    } else if down {
        speed
    } else {
        0i64
    }
}

/// One paddle's frame: velocity set from the intents, then one
/// clamped integration step.
pub open spec fn spec_paddle_frame(p: Paddle, up: bool, down: bool, cfg: Config, dt: u64) -> Paddle {
    let dy = intent_dy(up, down, cfg.paddle_speed);
    Paddle { y: clamped(p.y + dy * dt, 0, p.max_y - p.height) as i64, dy, ..p }
}

/// Where a paddle starts: inset from its own edge by the configured
/// margins, at rest.
pub open spec fn spec_paddle_start(cfg: Config, direction: PaddleDirection) -> Paddle {
    match direction {
        PaddleDirection::LEFT => Paddle {
            x: cfg.paddle_margin_x,
            y: cfg.paddle_margin_y,
            width: cfg.paddle_width,
            height: cfg.paddle_height,
            dy: 0i64,
            max_x: cfg.max_x,
            max_y: cfg.max_y,
            direction,
        },
        PaddleDirection::RIGHT => Paddle {
            x: (cfg.max_x - cfg.paddle_margin_x) as i64,
            y: (cfg.max_y - cfg.paddle_margin_y) as i64,
            width: cfg.paddle_width,
            height: cfg.paddle_height,
            dy: 0i64,
            max_x: cfg.max_x,
            max_y: cfg.max_y,
            direction,
        },
    }
}

/// The state after the confirm event: the other phase.
pub open spec fn toggled(s: GameState) -> GameState {
    match s {
        GameState::Start => GameState::Play,
        GameState::Play => GameState::Start,
    }
}

/// A whole match.
#[derive(Clone, Copy, PartialEq, Eq, Structural, Debug)]
pub struct Match {
    /// The configuration, fixed for the match's lifetime.
    pub cfg: Config,
    /// The left paddle.
    pub player_1: Paddle,
    /// The right paddle.
    pub player_2: Paddle,
    /// The ball.
    pub ball: Ball,
    /// Points scored by the left player.
    pub player_score_1: u32,
    /// Points scored by the right player.
    pub player_score_2: u32,
    /// The current phase.
    pub game_state: GameState,
}

/// One whole frame of the simulation, given the frame's random draws:
/// both paddles step from the intents; while in `Play` the ball then
/// integrates, deflects off each paddle, bounces off the walls, and —
/// if it is out past a side boundary — scores a point for the
/// opposing side and is re-served toward the side that conceded.
pub open spec fn spec_frame(m: Match, dt: u64, intents: Intents, d: FrameDraws) -> Match {
    let p1 = spec_paddle_frame(m.player_1, intents.p1_up, intents.p1_down, m.cfg, dt);
    let p2 = spec_paddle_frame(m.player_2, intents.p2_up, intents.p2_down, m.cfg, dt);
    if m.game_state == GameState::Start {
        Match { player_1: p1, player_2: p2, ..m }
    } else {
        let moved = spec_moved(m.ball, dt);
        let hit1 = spec_collided(moved, p1, m.cfg, d.rally_dy_1);
        let hit2 = spec_collided(hit1, p2, m.cfg, d.rally_dy_2);
        let walled = spec_bounced(hit2, m.cfg.max_y);
        match spec_check_out(walled.x as int, walled.width as int, m.cfg.max_x as int) {
            BallOutDirection::LEFT => Match {
                player_1: p1,
                player_2: p2,
                ball: spec_reset(
                    walled,
                    m.cfg.max_x,
                    m.cfg.max_y,
                    BallOutDirection::LEFT,
                    m.cfg,
                    true,
                    d.serve_dy,
                ),
                player_score_2: (m.player_score_2 + 1) as u32,
                ..m
            },
            BallOutDirection::RIGHT => Match {
                player_1: p1,
                player_2: p2,
                ball: spec_reset(
                    walled,
                    m.cfg.max_x,
                    m.cfg.max_y,
                    BallOutDirection::RIGHT,
                    m.cfg,
                    true,
                    d.serve_dy,
                ),
                player_score_1: (m.player_score_1 + 1) as u32,
                ..m
            },
            BallOutDirection::NONE => Match { player_1: p1, player_2: p2, ball: walled, ..m },
        }
    }
}

impl Match {
    /// Well-formed: a valid configuration, both paddles and the ball
    /// well-formed, and their fixed dimensions those of the
    /// configuration.
    pub open spec fn wf(self) -> bool {
        &&& self.cfg.valid()
        &&& self.player_1.wf()
        &&& self.player_2.wf()
        &&& self.ball.wf(self.cfg)
        &&& self.player_1.max_x == self.cfg.max_x
        &&& self.player_1.max_y == self.cfg.max_y
        &&& self.player_2.max_x == self.cfg.max_x
        &&& self.player_2.max_y == self.cfg.max_y
        &&& self.ball.width == self.cfg.ball_width
        &&& self.ball.height == self.cfg.ball_height
    }

    /// Constructs a match with the serve already chosen (see
    /// `Ball::new_with`): `Start` phase, both scores zero, paddles at
    /// their starting positions, ball centered.
    pub fn new_with(cfg: Config, serve_right: bool, serve_dy: i64) -> (m: Match)
        requires
            cfg.valid(),
            cfg.serve_dy_min <= serve_dy < cfg.serve_dy_max,
        ensures
            m == (Match {
                cfg,
                player_1: spec_paddle_start(cfg, PaddleDirection::LEFT),
                player_2: spec_paddle_start(cfg, PaddleDirection::RIGHT),
                ball: (Ball {
                    x: ((cfg.max_x - cfg.ball_width) / 2) as i64,
                    y: ((cfg.max_y - cfg.ball_height) / 2) as i64,
                    width: cfg.ball_width,
                    height: cfg.ball_height,
                    dx: if serve_right {
                        cfg.serve_speed
                    } else {
                        (-cfg.serve_speed) as i64
                    },
                    dy: serve_dy,
                }),
                player_score_1: 0u32,
                player_score_2: 0u32,
                game_state: GameState::Start,
            }),
            m.wf(),
    {
        let player_1 = Paddle::new(
            cfg.paddle_margin_x,
            cfg.paddle_margin_y,
            cfg.paddle_width,
            cfg.paddle_height,
            cfg.max_x,
            cfg.max_y,
            PaddleDirection::LEFT,
        );
        let player_2 = Paddle::new(
            cfg.max_x - cfg.paddle_margin_x,
            cfg.max_y - cfg.paddle_margin_y,
            cfg.paddle_width,
            cfg.paddle_height,
            cfg.max_x,
            cfg.max_y,
            PaddleDirection::RIGHT,
        );
        proof {
            lemma_div_pos_is_pos(cfg.max_x - cfg.ball_width, 2);
            lemma_div_nonincreasing(cfg.max_x - cfg.ball_width, 2);
            lemma_div_pos_is_pos(cfg.max_y - cfg.ball_height, 2);
            lemma_div_nonincreasing(cfg.max_y - cfg.ball_height, 2);
        }
        let ball = Ball::new_with(
            (cfg.max_x - cfg.ball_width) / 2,
            (cfg.max_y - cfg.ball_height) / 2,
            cfg.ball_width,
            cfg.ball_height,
            &cfg,
            serve_right,
            serve_dy,
        );
        Match {
            cfg,
            player_1,
            player_2,
            ball,
            player_score_1: 0,
            player_score_2: 0,
            game_state: GameState::Start,
        }
    }

    /// Constructs a match with a random serve: `Start` phase, both
    /// scores zero, paddles at their starting positions, ball
    /// centered with a coin-flip serve direction.
    pub fn new(cfg: Config) -> (m: Match)
        requires
            cfg.valid(),
        ensures
            m.cfg == cfg,
            m.game_state == GameState::Start,
            m.player_score_1 == 0,
            m.player_score_2 == 0,
            m.player_1 == spec_paddle_start(cfg, PaddleDirection::LEFT),
            m.player_2 == spec_paddle_start(cfg, PaddleDirection::RIGHT),
            m.ball.x == (cfg.max_x - cfg.ball_width) / 2,
            m.ball.y == (cfg.max_y - cfg.ball_height) / 2,
            m.ball.width == cfg.ball_width,
            m.ball.height == cfg.ball_height,
            m.ball.dx == cfg.serve_speed || m.ball.dx == -cfg.serve_speed,
            cfg.serve_dy_min <= m.ball.dy < cfg.serve_dy_max,
            m.wf(),
    {
        let serve_right = rand_coin();
        let serve_dy = rand_i64_in(cfg.serve_dy_min, cfg.serve_dy_max);
        Self::new_with(cfg, serve_right, serve_dy)
    }

    /// The confirm event: toggles between `Start` and `Play`
    /// unconditionally; nothing else changes.
    pub fn confirm(&mut self)
        ensures
            *final(self) == (Match { game_state: toggled(old(self).game_state), ..*old(self) }),
    {
        self.game_state = match self.game_state {
            GameState::Start => GameState::Play,
            GameState::Play => GameState::Start,
        };
    }

    /// One frame with the frame's random draws supplied by the
    /// caller: exactly `spec_frame`.
    pub fn update_with(
        &mut self,
        dt: u64,
        intents: Intents,
        rally_dy_1: i64,
        rally_dy_2: i64,
        serve_dy: i64,
    )
        requires
            old(self).wf(),
            dt <= DT_MAX,
            old(self).player_score_1 < u32::MAX,
            old(self).player_score_2 < u32::MAX,
            old(self).cfg.rally_dy_min <= rally_dy_1 < old(self).cfg.rally_dy_max,
            old(self).cfg.rally_dy_min <= rally_dy_2 < old(self).cfg.rally_dy_max,
            old(self).cfg.serve_dy_min <= serve_dy < old(self).cfg.serve_dy_max,
        ensures
            *final(self) == spec_frame(
                *old(self),
                dt,
                intents,
                FrameDraws { rally_dy_1, rally_dy_2, serve_dy },
            ),
            final(self).wf(),
    {
        let speed = self.cfg.paddle_speed;
        let dy1: i64 = if intents.p1_up {
            -speed
        } else if intents.p1_down {
            speed
        } else {
            0
        };
        self.player_1.set_dy(dy1);
        let dy2: i64 = if intents.p2_up {
            -speed
        } else if intents.p2_down {
            speed
        } else {
            0
        };
        self.player_2.set_dy(dy2);
        self.player_1.update(dt);
        self.player_2.update(dt);
        if matches!(self.game_state, GameState::Play) {
            self.ball.update(dt);
            self.ball.collides_with(&self.player_1, &self.cfg, rally_dy_1);
            self.ball.collides_with(&self.player_2, &self.cfg, rally_dy_2);
            self.ball.bounce(self.cfg.max_y);
            let out = self.ball.check_out(self.cfg.max_x);
            match out {
                BallOutDirection::LEFT => {
                    self.player_score_2 = self.player_score_2 + 1;
                    self.ball.reset_with(
                        self.cfg.max_x,
                        self.cfg.max_y,
                        BallOutDirection::LEFT,
                        &self.cfg,
                        true,
                        serve_dy,
                    );
                },
                BallOutDirection::RIGHT => {
                    self.player_score_1 = self.player_score_1 + 1;
                    self.ball.reset_with(
                        self.cfg.max_x,
                        self.cfg.max_y,
                        BallOutDirection::RIGHT,
                        &self.cfg,
                        true,
                        serve_dy,
                    );
                },
                BallOutDirection::NONE => {},
            }
        }
    }

    /// One frame: both paddles step from the intents; while in `Play`
    /// the ball then integrates, deflects, bounces, and on exiting a
    /// side boundary scores a point for the opposing side and is
    /// re-served toward the side that conceded. While in `Start` the
    /// ball and the scores do not change, however large `dt` is.
    pub fn update(&mut self, dt: u64, intents: Intents)
        requires
            old(self).wf(),
            dt <= DT_MAX,
            old(self).player_score_1 < u32::MAX,
            old(self).player_score_2 < u32::MAX,
        ensures
            exists|d: FrameDraws|
                #[trigger] d.wf(old(self).cfg) && *final(self) == spec_frame(
                    *old(self),
                    dt,
                    intents,
                    d,
                ),
            final(self).wf(),
            final(self).cfg == old(self).cfg,
            final(self).game_state == old(self).game_state,
            old(self).game_state == GameState::Start ==> final(self).ball == old(self).ball
                && final(self).player_score_1 == old(self).player_score_1
                && final(self).player_score_2 == old(self).player_score_2,
            final(self).player_score_1 >= old(self).player_score_1,
            final(self).player_score_2 >= old(self).player_score_2,
            final(self).player_score_1 + final(self).player_score_2 <= old(self).player_score_1
                + old(self).player_score_2 + 1,
    {
        let rally_dy_1 = rand_i64_in(self.cfg.rally_dy_min, self.cfg.rally_dy_max);
        let rally_dy_2 = rand_i64_in(self.cfg.rally_dy_min, self.cfg.rally_dy_max);
        let serve_dy = rand_i64_in(self.cfg.serve_dy_min, self.cfg.serve_dy_max);
        let ghost m0 = *self;
        self.update_with(dt, intents, rally_dy_1, rally_dy_2, serve_dy);
        proof {
            let d = FrameDraws { rally_dy_1, rally_dy_2, serve_dy };
            assert(d.wf(m0.cfg) && *self == spec_frame(m0, dt, intents, d));
        }
    }
}

/// The confirm event is a toggle: two confirm events return the match
/// to the phase it was in.
pub proof fn lemma_toggle_twice(s: GameState)
    ensures
        toggled(toggled(s)) == s,
{
}

} // verus!

//! The ball: position, velocity, serve delay, per-frame update and the
//! collision checks.

use vstd::prelude::*;
use crate::geometry::Rectangle;

verus! {

/// Width of the ball's bounding rectangle, in subunits.
pub const WIDTH: i64 = 15_000;

/// Height of the ball's bounding rectangle, in subunits.
pub const HEIGHT: i64 = 15_000;

/// Half of `WIDTH`, used to center the bounds on a point.
pub const HALF_WIDTH: i64 = 7_500;

/// Half of `HEIGHT`, used to center the bounds on a point.
pub const HALF_HEIGHT: i64 = 7_500;

/// Speed of a freshly served ball, in subunits per millisecond
/// (500 playfield units per second).
pub const BALL_STARTING_SPEED: i64 = 500;

/// Numerator of the intended paddle-bounce speed multiplier (23/20, i.e.
/// 1.15). Deliberately not applied anywhere yet: the paddle-bounce handler
/// is an open design point, and wiring the multiplier in is deferred with it.
pub const BALL_BOUNCE_SPEEDUP_NUM: i64 = 23;

/// Denominator of the intended paddle-bounce speed multiplier.
pub const BALL_BOUNCE_SPEEDUP_DEN: i64 = 20;

/// Per-frame timing and playfield geometry handed in by the game loop.
#[derive(Clone, Copy, PartialEq, Eq, Structural, Debug)]
pub struct UpdateParams {
    /// Frame delta time, in milliseconds.
    pub dt: i64,
    /// Playfield height, in subunits.
    pub game_height: i64,
}

/// A paddle, as far as the ball can see it: its bounding rectangle.
#[derive(Clone, Copy, PartialEq, Eq, Structural, Debug)]
pub struct Paddle {
    pub bounds: Rectangle,
}

/// A serve velocity is the starting speed up to one subunit-per-millisecond
/// of rounding in each component: its squared magnitude lies in the band
/// `[(speed - 1)^2, (speed + 1)^2]`. A velocity drawn at the starting speed
/// in any direction and rounded componentwise lands in this band.
pub open spec fn is_serve_velocity(vx: int, vy: int) -> bool {
    (BALL_STARTING_SPEED - 1) * (BALL_STARTING_SPEED - 1) <= vx * vx + vy * vy
        <= (BALL_STARTING_SPEED + 1) * (BALL_STARTING_SPEED + 1)
}

/// The vertical velocity the wall check leaves behind, given the ball's top
/// edge, its height, its vertical velocity, and the playfield height: the
/// sign flips when the ball sticks out above the top or below the bottom.
pub open spec fn wall_vy(y: int, height: int, vy: int, game_height: int) -> int {
    if y < 0 {
        -vy
    } else if y + height > game_height {
        -vy
    } else {
        vy
    }
}

/// The ball: bounding rectangle, velocity, and the serve delay timer.
/// While `start_timer` is positive the ball stays in place.
#[derive(Clone, PartialEq, Eq, Structural, Debug)]
pub struct Ball {
    pub bounds: Rectangle,
    pub vx: i64,
    pub vy: i64,
    pub start_timer: i64,
}

impl Ball {
    /// The bounds have the fixed ball size.
    pub open spec fn has_ball_size(self) -> bool {
        &&& self.bounds.width == WIDTH
        &&& self.bounds.height == HEIGHT
    }

    /// Well-formed: fixed size, and the velocity still has serve magnitude.
    /// Wall bounces only flip a sign, so every reachable ball keeps it.
    pub open spec fn wf(self) -> bool {
        &&& self.has_ball_size()
        &&& is_serve_velocity(self.vx as int, self.vy as int)
    }

    /// Squared magnitude of the velocity.
    pub open spec fn speed_sq(self) -> int {
        self.vx * self.vx + self.vy * self.vy
    }

    /// Top-edge x after the integration step of one frame of length `dt`.
    pub open spec fn x_after(self, dt: int) -> int {
        if self.start_timer > 0 {
            self.bounds.x as int
        } else {
            self.bounds.x + self.vx * dt
        }
    }

    /// Top-edge y after the integration step of one frame of length `dt`.
    pub open spec fn y_after(self, dt: int) -> int {
        if self.start_timer > 0 {
            self.bounds.y as int
        } else {
            self.bounds.y + self.vy * dt
        }
    }

    /// Serve timer after the integration step of one frame of length `dt`.
    pub open spec fn timer_after(self, dt: int) -> int {
        if self.start_timer > 0 {
            self.start_timer - dt
        } else {
            self.start_timer as int
        }
    }

    /// Vertical velocity after a whole frame: integration, then wall check.
    pub open spec fn vy_after(self, dt: int, game_height: int) -> int {
        wall_vy(self.y_after(dt), self.bounds.height as int, self.vy as int, game_height)
    }

    /// All the arithmetic of one frame of length `dt` stays within `i64`.
    pub open spec fn update_fits(self, dt: int) -> bool {
        &&& i64::MIN as int <= self.start_timer - dt
        &&& i64::MIN as int <= self.vx * dt <= i64::MAX as int
        &&& i64::MIN as int <= self.vy * dt <= i64::MAX as int
        &&& i64::MIN as int <= self.bounds.x + self.vx * dt <= i64::MAX as int
        &&& i64::MIN as int <= self.bounds.y + self.vy * dt <= i64::MAX as int
        &&& self.y_after(dt) + self.bounds.height <= i64::MAX as int
        &&& self.bounds.y + self.bounds.height <= i64::MAX as int
    }

    /// Creates a new ball at the given position, serving with the given
    /// velocity. The serve timer starts at zero, so the ball moves on the
    /// very first frame.
    pub fn new(x: i64, y: i64, vx: i64, vy: i64) -> (ball: Ball)
        requires
            is_serve_velocity(vx as int, vy as int),
            i64::MIN as int <= x - HALF_WIDTH,
            i64::MIN as int <= y - HALF_HEIGHT,
        ensures
            ball.wf(),
            ball.bounds.center_x() == x,
            ball.bounds.center_y() == y,
            ball.bounds.x == x - HALF_WIDTH,
            ball.bounds.y == y - HALF_HEIGHT,
            ball.bounds.width == WIDTH,
            ball.bounds.height == HEIGHT,
            ball.vx == vx,
            ball.vy == vy,
            ball.start_timer == 0,
    {
        let mut ball = Ball {
            vx: 0,
            vy: 0,
            start_timer: 0,
            bounds: Rectangle { x: 0, y: 0, width: WIDTH, height: HEIGHT },
        };
        ball.reset(x, y, vx, vy);
        ball
    }

    /// Resets the ball back to the given position with the given serve
    /// velocity: the bounds are re-centered so that their centroid is
    /// exactly `(x, y)`, and the velocity is replaced. The serve timer is
    /// left untouched.
    pub fn reset(&mut self, x: i64, y: i64, vx: i64, vy: i64)
        requires
            old(self).has_ball_size(),
            is_serve_velocity(vx as int, vy as int),
            i64::MIN as int <= x - HALF_WIDTH,
            i64::MIN as int <= y - HALF_HEIGHT,
        ensures
            final(self).wf(),
            final(self).bounds.center_x() == x,
            final(self).bounds.center_y() == y,
            final(self).bounds.x == x - HALF_WIDTH,
            final(self).bounds.y == y - HALF_HEIGHT,
            final(self).bounds.width == old(self).bounds.width,
            final(self).bounds.height == old(self).bounds.height,
            final(self).vx == vx,
            final(self).vy == vy,
            final(self).start_timer == old(self).start_timer,
            final(self).speed_sq() == vx * vx + vy * vy,
            (BALL_STARTING_SPEED - 1) * (BALL_STARTING_SPEED - 1) <= final(self).speed_sq()
                <= (BALL_STARTING_SPEED + 1) * (BALL_STARTING_SPEED + 1),
    {
        self.bounds.x = x - HALF_WIDTH;
        self.bounds.y = y - HALF_HEIGHT;
        self.vx = vx;
        self.vy = vy;
    }

    /// Updates the position of the ball and runs the collision checks, in
    /// a fixed order: integrate (or tick the serve timer), then the two
    /// paddle checks, the wall check, and the goal check.
    pub fn update(&mut self, params: &UpdateParams, left_paddle: &mut Paddle, right_paddle: &mut Paddle)
        requires
            old(self).wf(),
            params.dt >= 0,
            old(self).update_fits(params.dt as int),
        ensures
            final(self).wf(),
            final(self).bounds.x == old(self).x_after(params.dt as int),
            final(self).bounds.y == old(self).y_after(params.dt as int),
            final(self).bounds.width == old(self).bounds.width,
            final(self).bounds.height == old(self).bounds.height,
            final(self).vx == old(self).vx,
            final(self).vy == old(self).vy_after(params.dt as int, params.game_height as int),
            final(self).start_timer == old(self).timer_after(params.dt as int),
            *final(left_paddle) == *old(left_paddle),
            *final(right_paddle) == *old(right_paddle),
    {
        // The ball stays still until the serve timer elapses.
        if self.start_timer > 0 {
            self.start_timer = self.start_timer - params.dt;
        } else {
            self.bounds.x = self.bounds.x + self.vx * params.dt;
            self.bounds.y = self.bounds.y + self.vy * params.dt;
        }

        // Check collision.
        self.check_paddle_collision(left_paddle);
        self.check_paddle_collision(right_paddle);
        self.check_wall_collision(params);
        self.check_goal(params, left_paddle, right_paddle);
    }

    /// Handles collision between the ball and a paddle.
    ///
    /// Deliberately a behavior-preserving stub: the reflection geometry and
    /// the use of the bounce-speedup multiplier are open design points, so
    /// the check leaves the ball untouched.
    pub fn check_paddle_collision(&mut self, paddle: &Paddle)
        ensures
            *final(self) == *old(self),
    {
    }

    /// Handles collision between the ball and the top or bottom of the
    /// screen: when the ball sticks out above the top or below the bottom,
    /// the vertical velocity flips sign; the position is not clamped.
    pub fn check_wall_collision(&mut self, params: &UpdateParams)
        requires
            old(self).wf(),
            old(self).bounds.y + old(self).bounds.height <= i64::MAX as int,
        ensures
            final(self).wf(),
            final(self).bounds == old(self).bounds,
            final(self).vx == old(self).vx,
            final(self).vy == wall_vy(
                old(self).bounds.y as int,
                old(self).bounds.height as int,
                old(self).vy as int,
                params.game_height as int,
            ),
            final(self).start_timer == old(self).start_timer,
    {
        proof {
            lemma_serve_velocity_bounds(self.vx as int, self.vy as int);
            lemma_reflection_preserves_speed(self.vx as int, self.vy as int);
        }
        if self.bounds.y < 0 {
            // TOP
            self.vy = -self.vy;
        } else if self.bounds.y + self.bounds.height > params.game_height {
            // BOTTOM
            self.vy = -self.vy;
        }
    }

    /// Handles collision between the ball and the left or right edge of the
    /// screen.
    ///
    /// Deliberately a behavior-preserving stub: the scoring surface on the
    /// paddles and the playfield width are open design points, so the check
    /// leaves the ball and both paddles untouched.
    pub fn check_goal(&mut self, params: &UpdateParams, left_paddle: &mut Paddle, right_paddle: &mut Paddle)
        ensures
            *final(self) == *old(self),
            *final(left_paddle) == *old(left_paddle),
            *final(right_paddle) == *old(right_paddle),
    {
    }

    /// Sets the serve delay timer. While the timer is positive the ball
    /// stays in place; `update` ticks it down by `dt` each frame.
    pub fn set_start_timer(&mut self, timer: i64)
        ensures
            final(self).start_timer == timer,
            final(self).bounds == old(self).bounds,
            final(self).vx == old(self).vx,
            final(self).vy == old(self).vy,
    {
        self.start_timer = timer;
    }
}

/// A serve velocity never exceeds one subunit-per-millisecond more than the
/// starting speed in either component.
pub proof fn lemma_serve_velocity_bounds(vx: int, vy: int)
    by (nonlinear_arith)
    requires
        is_serve_velocity(vx, vy),
    ensures
        -(BALL_STARTING_SPEED + 1) <= vx <= BALL_STARTING_SPEED + 1,
        -(BALL_STARTING_SPEED + 1) <= vy <= BALL_STARTING_SPEED + 1,
{
}

/// Flipping the sign of the vertical velocity keeps the squared speed, so a
/// wall bounce keeps a serve velocity a serve velocity.
pub proof fn lemma_reflection_preserves_speed(vx: int, vy: int)
    by (nonlinear_arith)
    ensures
        vx * vx + (-vy) * (-vy) == vx * vx + vy * vy,
        is_serve_velocity(vx, vy) ==> is_serve_velocity(vx, -vy),
{
}

/// Serve delay law: while the serve timer is positive, one frame's
/// integration step leaves the position unchanged and decreases the timer
/// by exactly `dt`, whatever the velocity.
pub proof fn lemma_serve_delay(b: Ball, dt: int)
    requires
        b.start_timer > 0,
    ensures
        b.x_after(dt) == b.bounds.x,
        b.y_after(dt) == b.bounds.y,
        b.timer_after(dt) == b.start_timer - dt,
{
}

/// Integration law: once the serve timer has elapsed, one frame's
/// integration step moves the position by exactly `velocity * dt` and
/// leaves the timer unchanged.
pub proof fn lemma_integration(b: Ball, dt: int)
    requires
        b.start_timer <= 0,
    ensures
        b.x_after(dt) == b.bounds.x + b.vx * dt,
        b.y_after(dt) == b.bounds.y + b.vy * dt,
        b.timer_after(dt) == b.start_timer,
{
}

/// Wall reflection, top edge: when the frame ends with the ball's top edge
/// above the top wall, the wall check flips the sign of `vy`.
pub proof fn lemma_wall_reflection_top(b: Ball, dt: int, game_height: int)
    requires
        b.y_after(dt) < 0,
    ensures
        b.vy_after(dt, game_height) == -(b.vy as int),
{
}

/// Wall reflection, bottom edge: when the frame ends with the ball's bottom
/// edge below the bottom wall (and not above the top), the wall check flips
/// the sign of `vy`.
pub proof fn lemma_wall_reflection_bottom(b: Ball, dt: int, game_height: int)
    requires
        b.y_after(dt) >= 0,
        b.y_after(dt) + b.bounds.height > game_height,
    ensures
        b.vy_after(dt, game_height) == -(b.vy as int),
{
}

/// Wall reflection, inside: when the frame ends with the ball inside the
/// vertical bounds, the wall check leaves `vy` alone.
pub proof fn lemma_wall_no_reflection(b: Ball, dt: int, game_height: int)
    requires
        b.y_after(dt) >= 0,
        b.y_after(dt) + b.bounds.height <= game_height,
    ensures
        b.vy_after(dt, game_height) == b.vy,
{
}

} // verus!

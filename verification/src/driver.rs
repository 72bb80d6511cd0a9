//! The session: one ball, two paddles and the clock sample of the last frame.

use crate::collision::{collision, resolved_position, resolved_velocity};
use crate::controllers::{ai_velocity, move_ai, move_user, user_velocity};
use crate::court::{BALL_RADIUS, LEFT_PADDLE_X, RIGHT_PADDLE_X};
use crate::entities::{Ball, Color, Movement, Paddle};
use crate::fixed::LIMIT;
use crate::geometry::{near_unit, unit_of};
use crate::vector::{Point, Vector2};
use vstd::prelude::*;

verus! {

/// Whether the session is running or waits for the page to be shown again.
#[derive(Clone, Copy, Debug, PartialEq, Eq, Structural)]
pub enum Phase {
    Active,
    Suspended,
}

/// The state of a session. Clock samples are in microseconds.
#[derive(Clone, Copy, Debug, PartialEq, Eq)]
pub struct Game {
    pub ball: Ball,
    pub left: Paddle,
    pub right: Paddle,
    pub last_time: u64,
    pub phase: Phase,
}

impl Game {
    /// The time that a frame at `now` would step over.
    pub open spec fn elapsed(self, now: u64) -> int {
        now - self.last_time
    }

    /// The session after the page was shown or hidden at `now`: shown, it is
    /// active and measures time from `now`; hidden, it is suspended.
    pub open spec fn rebased(self, visible: bool, now: u64) -> Game {
        if visible {
            Game { last_time: now, phase: Phase::Active, ..self }
        } else {
            Game { phase: Phase::Suspended, ..self }
        }
    }

    /// An active session can take a frame at `now` with the raw spawn
    /// direction `spawn`: the clock has not run backwards, the step and every
    /// entity are within the engine's limits, and `spawn` has a direction.
    /// A suspended session takes any frame.
    pub open spec fn ready(self, now: u64, spawn: Vector2) -> bool {
        self.phase == Phase::Active ==> {
            &&& self.last_time <= now
            &&& now - self.last_time <= LIMIT
            &&& self.ball.in_range()
            &&& self.left.in_range()
            &&& self.right.in_range()
            &&& spawn.in_range()
            &&& (spawn.x != 0 || spawn.y != 0)
        }
    }

    /// `post` is what a frame at `now` makes of the session `self`. A
    /// suspended session stays as it is. In an active one the ball's contacts
    /// are resolved at its lookahead position, the ball then travels at the
    /// resolved velocity, each paddle travels at the velocity it had, and last
    /// the controllers choose the paddles' velocities for the frame to come.
    pub open spec fn frame(self, post: Game, now: u64, movement: Movement, spawn: Point) -> bool {
        let dt = self.elapsed(now);
        match self.phase {
            Phase::Suspended => post == self,
            Phase::Active => {
                &&& post.phase == Phase::Active
                &&& post.last_time == now
                &&& post.ball.velocity@ == resolved_velocity(
                    self.ball,
                    self.left,
                    self.right,
                    dt,
                    spawn,
                )
                &&& post.ball.position@ == resolved_position(self.ball, dt).moved(
                    post.ball.velocity@,
                    dt,
                )
                &&& post.ball.radius == self.ball.radius
                &&& post.ball.color == self.ball.color
                &&& post.left.position@ == self.left.position@.moved(self.left.velocity@, dt)
                &&& post.left.velocity.x == self.left.velocity.x
                &&& post.left.velocity.y == user_velocity(movement, post.left.position.y as int)
                &&& post.left.color == self.left.color
                &&& post.right.position@ == self.right.position@.moved(self.right.velocity@, dt)
                &&& post.right.velocity.x == self.right.velocity.x
                &&& post.right.velocity.y == ai_velocity(
                    post.ball.position.y as int,
                    post.right.position.y as int,
                )
                &&& post.right.color == self.right.color
            },
        }
    }

    /// A fresh active session at clock sample `now`: a white ball at the
    /// origin leaving along `spawn`, a red paddle on the left and a blue one on
    /// the right, both at rest at mid-height.
    pub fn new(spawn: Vector2, now: u64) -> (game: Game)
        requires
            spawn.in_range(),
            spawn.x != 0 || spawn.y != 0,
        ensures
            game.phase == Phase::Active,
            game.last_time == now,
            game.ball.position@ == (Point { x: 0, y: 0 }),
            game.ball.velocity@ == unit_of(spawn@),
            near_unit(game.ball.velocity@),
            game.ball.radius == BALL_RADIUS,
            game.ball.color == (Color { red: 255, green: 255, blue: 255, alpha: 255 }),
            game.left.position@ == (Point { x: LEFT_PADDLE_X as int, y: 0 }),
            game.left.velocity@ == (Point { x: 0, y: 0 }),
            game.left.color == (Color { red: 255, green: 0, blue: 0, alpha: 255 }),
            game.right.position@ == (Point { x: RIGHT_PADDLE_X as int, y: 0 }),
            game.right.velocity@ == (Point { x: 0, y: 0 }),
            game.right.color == (Color { red: 0, green: 0, blue: 255, alpha: 255 }),
            game.ball.in_range(),
            game.left.in_range(),
            game.right.in_range(),
    {
        let white = Color { red: 255, green: 255, blue: 255, alpha: 255 };
        let red = Color { red: 255, green: 0, blue: 0, alpha: 255 };
        let blue = Color { red: 0, green: 0, blue: 255, alpha: 255 };
        Game {
            ball: Ball::new(BALL_RADIUS, white, spawn),
            left: Paddle::new((LEFT_PADDLE_X, 0), red),
            right: Paddle::new((RIGHT_PADDLE_X, 0), blue),
            last_time: now,
            phase: Phase::Active,
        }
    }

    /// Takes the news that the page was shown or hidden at clock sample `now`.
    pub fn visibility_changed(&mut self, visible: bool, now: u64)
        ensures
            *final(self) == old(self).rebased(visible, now),
    {
        if visible {
            self.last_time = now;
            self.phase = Phase::Active;
        } else {
            self.phase = Phase::Suspended;
        }
    }

    /// Tells whether the session can take a frame at `now` with `spawn`.
    pub fn is_ready(&self, now: u64, spawn: Vector2) -> (ok: bool)
        ensures
            ok == self.ready(now, spawn),
    {
        match self.phase {
            Phase::Suspended => true,
            Phase::Active => {
                self.last_time <= now && now - self.last_time <= LIMIT as u64
                    && self.ball.is_in_range() && self.left.is_in_range()
                    && self.right.is_in_range() && spawn.is_in_range() && (spawn.x != 0 || spawn.y
                    != 0)
            },
        }
    }

    /// Advances the session by one frame, to clock sample `now`.
    pub fn tick(&mut self, now: u64, movement: Movement, spawn: Vector2)
        requires
            old(self).ready(now, spawn),
        ensures
            old(self).frame(*final(self), now, movement, spawn@),
    {
        match self.phase {
            Phase::Suspended => {},
            Phase::Active => {
                let dt: i64 = (now - self.last_time) as i64;
                self.last_time = now;
                collision(&mut self.ball, &self.left, &self.right, dt, spawn);
                self.ball.position = self.ball.position.advanced(self.ball.velocity, dt);
                self.left.position = self.left.position.advanced(self.left.velocity, dt);
                move_user(&mut self.left, movement);
                self.right.position = self.right.position.advanced(self.right.velocity, dt);
                move_ai(&self.ball, &mut self.right);
            },
        }
    }

    /// Advances the session by one frame where it can take one, and leaves it
    /// untouched where it cannot. Returns whether it could.
    pub fn step(&mut self, now: u64, movement: Movement, spawn: Vector2) -> (taken: bool)
        ensures
            taken == old(self).ready(now, spawn),
            taken ==> old(self).frame(*final(self), now, movement, spawn@),
            !taken ==> *final(self) == *old(self),
    {
        if self.is_ready(now, spawn) {
            self.tick(now, movement, spawn);
            true
        } else {
            false
        }
    }
}

} // verus!

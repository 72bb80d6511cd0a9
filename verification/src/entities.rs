//! The ball, the paddles and the pending input.

use crate::court::{KEY_DOWN, KEY_UP};
use crate::fixed::{bounded, LIMIT, UNIT};
use crate::geometry::{near_unit, normalize, unit_of};
use crate::vector::{Point, Vector2};
use vstd::prelude::*;

verus! {

/// A colour, carried for whoever draws the entity.
#[derive(Clone, Copy, Debug, PartialEq, Eq, Structural)]
pub struct Color {
    pub red: u8,
    pub green: u8,
    pub blue: u8,
    pub alpha: u8,
}

/// The latest pending direction for the user's paddle.
#[derive(Clone, Copy, Debug, PartialEq, Eq, Structural)]
pub enum Movement {
    Up,
    Down,
    Idle,
}

impl Movement {
    /// The pending direction after a key went down.
    pub open spec fn after_key_down(self, key_code: u32) -> Movement {
        if key_code == KEY_UP {
            Movement::Up
        } else if key_code == KEY_DOWN {
            Movement::Down
        } else {
            self
        }
    }

    /// The pending direction after a key came up: releasing the key of the
    /// pending direction ends it, any other release changes nothing.
    pub open spec fn after_key_up(self, key_code: u32) -> Movement {
        if (key_code == KEY_UP && self == Movement::Up) || (key_code == KEY_DOWN && self
            == Movement::Down) {
            Movement::Idle
        } else {
            self
        }
    }

    /// Takes a key-down event.
    pub fn key_down(self, key_code: u32) -> (next: Movement)
        ensures
            next == self.after_key_down(key_code),
    {
        if key_code == KEY_UP {
            Movement::Up
        } else if key_code == KEY_DOWN {
            Movement::Down
        } else {
            self
        }
    }

    /// Takes a key-up event.
    pub fn key_up(self, key_code: u32) -> (next: Movement)
        ensures
            next == self.after_key_up(key_code),
    {
        match self {
            Movement::Up => if key_code == KEY_UP {
                Movement::Idle
            } else {
                self
            },
            Movement::Down => if key_code == KEY_DOWN {
                Movement::Idle
            } else {
                self
            },
            Movement::Idle => self,
        }
    }
}

/// The raw direction drawn from two random samples of the unit interval, each
/// mapped onto `[-UNIT, UNIT]`.
pub fn spawn_direction(sample_x: i64, sample_y: i64) -> (spawn: Vector2)
    requires
        0 <= sample_x <= UNIT,
        0 <= sample_y <= UNIT,
    ensures
        spawn.x == 2 * sample_x - UNIT,
        spawn.y == 2 * sample_y - UNIT,
        spawn.in_range(),
{
    Vector2 { x: 2 * sample_x - UNIT, y: 2 * sample_y - UNIT }
}

/// The ball.
#[derive(Clone, Copy, Debug, PartialEq, Eq)]
pub struct Ball {
    pub position: Vector2,
    pub velocity: Vector2,
    pub radius: i64,
    pub color: Color,
}

impl Ball {
    /// Position, velocity and radius are accepted as engine input.
    pub open spec fn in_range(self) -> bool {
        &&& self.position.in_range()
        &&& self.velocity.in_range()
        &&& bounded(self.radius as int, LIMIT as int)
    }

    /// Tells whether position, velocity and radius are accepted as engine input.
    pub fn is_in_range(&self) -> (ok: bool)
        ensures
            ok == self.in_range(),
    {
        self.position.is_in_range() && self.velocity.is_in_range() && -LIMIT <= self.radius
            && self.radius <= LIMIT
    }

    /// A ball at the origin that leaves in the direction of `spawn` at unit speed.
    pub fn new(radius: i64, color: Color, spawn: Vector2) -> (ball: Ball)
        requires
            spawn.in_range(),
            spawn.x != 0 || spawn.y != 0,
        ensures
            ball.position@ == (Point { x: 0, y: 0 }),
            ball.velocity@ == unit_of(spawn@),
            near_unit(ball.velocity@),
            ball.velocity.in_range(),
            ball.radius == radius,
            ball.color == color,
    {
        Ball { position: Vector2::zeros(), velocity: normalize(spawn), radius, color }
    }

    /// Puts the ball back at the origin, leaving in the direction of `spawn` at
    /// unit speed.
    pub fn reset(&mut self, spawn: Vector2)
        requires
            spawn.in_range(),
            spawn.x != 0 || spawn.y != 0,
        ensures
            final(self).position@ == (Point { x: 0, y: 0 }),
            final(self).velocity@ == unit_of(spawn@),
            near_unit(final(self).velocity@),
            final(self).velocity.in_range(),
            final(self).radius == old(self).radius,
            final(self).color == old(self).color,
    {
        self.position = Vector2::zeros();
        self.velocity = normalize(spawn);
    }
}

/// A paddle. Its horizontal position is fixed when it is made, and only a
/// controller sets its vertical velocity.
#[derive(Clone, Copy, Debug, PartialEq, Eq)]
pub struct Paddle {
    pub position: Vector2,
    pub velocity: Vector2,
    pub color: Color,
}

impl Paddle {
    /// Position and velocity are accepted as engine input.
    pub open spec fn in_range(self) -> bool {
        self.position.in_range() && self.velocity.in_range()
    }

    /// Tells whether position and velocity are accepted as engine input.
    pub fn is_in_range(&self) -> (ok: bool)
        ensures
            ok == self.in_range(),
    {
        self.position.is_in_range() && self.velocity.is_in_range()
    }

    /// A paddle at rest at `position`.
    pub fn new(position: (i64, i64), color: Color) -> (paddle: Paddle)
        ensures
            paddle.position.x == position.0,
            paddle.position.y == position.1,
            paddle.velocity@ == (Point { x: 0, y: 0 }),
            paddle.color == color,
    {
        Paddle { position: Vector2::new(position.0, position.1), velocity: Vector2::zeros(), color }
    }
}

} // verus!

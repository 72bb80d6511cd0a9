//! The fixed measures of the court, in fixed-point steps.

use vstd::prelude::*;

verus! {

/// The top and bottom walls stand at `y = WALL_BOUND` and `y = -WALL_BOUND`.
pub const WALL_BOUND: i64 = 552_000;

/// A controller stops a paddle whose centre has reached `PADDLE_BOUND` from the middle.
pub const PADDLE_BOUND: i64 = 470_000;

/// Half the height of a paddle.
pub const PADDLE_HALF_HEIGHT: i64 = 100_000;

/// Half the width of a paddle: the offset of its faces from its centre.
pub const PADDLE_HALF_WIDTH: i64 = 25_000;

/// The radius of the ball in play.
pub const BALL_RADIUS: i64 = 25_000;

/// The vertical speed of a moving paddle.
pub const PADDLE_SPEED: i64 = 500_000;

/// The factor by which a paddle contact scales the horizontal velocity: 1.01.
pub const AMPLIFICATION: i64 = 1_010_000;

/// The share of a paddle's vertical velocity handed to the ball on contact: 0.2.
pub const SPIN: i64 = 200_000;

/// The AI paddle rests while the ball is closer than this to its height.
pub const DEAD_ZONE: i64 = 50_000;

/// A ball whose next position lies beyond `GOAL_LINE` on either side has scored.
pub const GOAL_LINE: i64 = 1_000_000;

/// The horizontal position of the left paddle.
pub const LEFT_PADDLE_X: i64 = -900_000;

/// The horizontal position of the right paddle.
pub const RIGHT_PADDLE_X: i64 = 900_000;

/// The key code that steers the user's paddle up.
pub const KEY_UP: u32 = 87;

/// The key code that steers the user's paddle down.
pub const KEY_DOWN: u32 = 83;

} // verus!

//! The two policies that set a paddle's vertical velocity.

use crate::court::{DEAD_ZONE, PADDLE_BOUND, PADDLE_SPEED};
use crate::entities::{Ball, Movement, Paddle};
use crate::fixed::magnitude;
use vstd::prelude::*;

verus! {

/// The vertical velocity that the pending input gives a paddle at height `y`:
/// full speed in the requested direction, and rest once the paddle has reached
/// the bound on that side.
pub open spec fn user_velocity(movement: Movement, y: int) -> int {
    match movement {
        Movement::Up => if y < PADDLE_BOUND {
            PADDLE_SPEED as int
        } else {
            0
        },
        Movement::Down => if y > -PADDLE_BOUND {
            -PADDLE_SPEED
        } else {
            0
        },
        Movement::Idle => 0,
    }
}

/// The vertical velocity with which a paddle at height `y` tracks a ball at
/// height `ball_y`: rest inside the dead zone, else full speed toward the ball,
/// and rest once the paddle has reached the bound on that side.
pub open spec fn ai_velocity(ball_y: int, y: int) -> int {
    if magnitude(ball_y - y) < DEAD_ZONE {
        0
    } else if ball_y < y {
        if y > -PADDLE_BOUND {
            -PADDLE_SPEED
        } else {
            0
        }
    } else {
        if y < PADDLE_BOUND {
            PADDLE_SPEED as int
        } else {
            0
        }
    }
}

/// Sets the user's paddle in motion as the pending input asks.
pub fn move_user(player: &mut Paddle, movement: Movement)
    ensures
        final(player).velocity.y == user_velocity(movement, old(player).position.y as int),
        final(player).velocity.x == old(player).velocity.x,
        final(player).position == old(player).position,
        final(player).color == old(player).color,
{
    match movement {
        Movement::Up => {
            if player.position.y < PADDLE_BOUND {
                player.velocity.y = PADDLE_SPEED;
            } else {
                player.velocity.y = 0;
            }
        },
        Movement::Down => {
            if player.position.y > -PADDLE_BOUND {
                player.velocity.y = -PADDLE_SPEED;
            } else {
                player.velocity.y = 0;
            }
        },
        Movement::Idle => {
            player.velocity.y = 0;
        },
    }
}

/// Sets the AI paddle in motion toward the ball.
pub fn move_ai(ball: &Ball, player: &mut Paddle)
    ensures
        final(player).velocity.y == ai_velocity(
            ball.position.y as int,
            old(player).position.y as int,
        ),
        final(player).velocity.x == old(player).velocity.x,
        final(player).position == old(player).position,
        final(player).color == old(player).color,
{
    let gap: i128 = ball.position.y as i128 - player.position.y as i128;
    if -(DEAD_ZONE as i128) < gap && gap < DEAD_ZONE as i128 {
        player.velocity.y = 0;
    } else if gap < 0 && player.position.y > -PADDLE_BOUND {
        player.velocity.y = -PADDLE_SPEED;
    } else if gap > 0 && player.position.y < PADDLE_BOUND {
        player.velocity.y = PADDLE_SPEED;
    } else {
        player.velocity.y = 0;
    }
}

} // verus!

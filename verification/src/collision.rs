//! Contacts of the ball with walls, paddles and goals, judged at the position
//! that the ball would reach in the coming frame.

use crate::court::{
    AMPLIFICATION, GOAL_LINE, PADDLE_HALF_HEIGHT, PADDLE_HALF_WIDTH, SPIN, WALL_BOUND,
};
use crate::entities::{Ball, Paddle};
use crate::fixed::{bounded, fx_mul, lemma_product_bounded, scaled, LIMIT};
use crate::geometry::{circle_intersect_line, circle_meets_line, near_unit, unit_of};
use crate::vector::{Point, Vector2};
use vstd::prelude::*;

verus! {

/// Where the ball would be after `dt` at its present velocity.
pub open spec fn lookahead(ball: Ball, dt: int) -> Point {
    ball.position@.moved(ball.velocity@, dt)
}

/// The point lies above the top wall or below the bottom wall.
pub open spec fn beyond_wall(p: Point) -> bool {
    p.y < -WALL_BOUND || p.y > WALL_BOUND
}

/// The point lies behind the left or the right goal line.
pub open spec fn beyond_goal(p: Point) -> bool {
    p.x > GOAL_LINE || p.x < -GOAL_LINE
}

/// A ball of the given radius at `p` touches the right face of `paddle`.
pub open spec fn touches_right_face(p: Point, radius: int, paddle: Paddle) -> bool {
    circle_meets_line(
        p,
        radius,
        paddle.position@.shifted(PADDLE_HALF_WIDTH as int, PADDLE_HALF_HEIGHT as int),
        paddle.position@.shifted(PADDLE_HALF_WIDTH as int, -PADDLE_HALF_HEIGHT),
    )
}

/// A ball of the given radius at `p` touches the left face of `paddle`.
pub open spec fn touches_left_face(p: Point, radius: int, paddle: Paddle) -> bool {
    circle_meets_line(
        p,
        radius,
        paddle.position@.shifted(-PADDLE_HALF_WIDTH, PADDLE_HALF_HEIGHT as int),
        paddle.position@.shifted(-PADDLE_HALF_WIDTH, -PADDLE_HALF_HEIGHT),
    )
}

/// A velocity thrown back by the top or bottom wall.
pub open spec fn reflected(v: Point) -> Point {
    Point { x: v.x, y: -v.y }
}

/// A velocity thrown back by `paddle`: the horizontal part turns round and
/// grows by the amplification, the vertical part takes a share of the paddle's
/// own motion.
pub open spec fn bounced(v: Point, paddle: Paddle) -> Point {
    Point {
        x: scaled(-v.x, AMPLIFICATION as int),
        y: v.y + scaled(paddle.velocity.y as int, SPIN as int),
    }
}

/// The ball's velocity after the wall and the two paddles had their turn, in
/// that order, each judged at the lookahead position.
pub open spec fn deflected_velocity(ball: Ball, left: Paddle, right: Paddle, dt: int) -> Point {
    let p = lookahead(ball, dt);
    let after_wall = if beyond_wall(p) {
        reflected(ball.velocity@)
    } else {
        ball.velocity@
    };
    let after_left = if touches_right_face(p, ball.radius as int, left) {
        bounced(after_wall, left)
    } else {
        after_wall
    };
    if touches_left_face(p, ball.radius as int, right) {
        bounced(after_left, right)
    } else {
        after_left
    }
}

/// The ball's velocity once the frame's contacts are resolved: a fresh unit
/// velocity along `spawn` after a goal, the deflected velocity otherwise.
pub open spec fn resolved_velocity(
    ball: Ball,
    left: Paddle,
    right: Paddle,
    dt: int,
    spawn: Point,
) -> Point {
    if beyond_goal(lookahead(ball, dt)) {
        unit_of(spawn)
    } else {
        deflected_velocity(ball, left, right, dt)
    }
}

/// The position from which the ball travels this frame: the origin after a
/// goal, its present position otherwise.
pub open spec fn resolved_position(ball: Ball, dt: int) -> Point {
    if beyond_goal(lookahead(ball, dt)) {
        Point { x: 0, y: 0 }
    } else {
        ball.position@
    }
}

/// The paddle's answer to a ball arriving with `velocity`.
fn bounce(velocity: Vector2, paddle: &Paddle) -> (after: Vector2)
    requires
        velocity@.within(3 * LIMIT / 2),
        paddle.velocity.in_range(),
    ensures
        after@ == bounced(velocity@, *paddle),
        after@.within(2 * LIMIT),
        velocity@.within(LIMIT as int) ==> after@.within(3 * LIMIT / 2),
{
    proof {
        lemma_product_bounded(-velocity.x as int, AMPLIFICATION as int);
        lemma_product_bounded(paddle.velocity.y as int, SPIN as int);
    }
    let x: i64 = fx_mul(-velocity.x, AMPLIFICATION);
    let spin: i64 = fx_mul(paddle.velocity.y, SPIN);
    Vector2 { x, y: velocity.y + spin }
}

/// Resolves the coming frame's contacts. The ball's velocity is reflected by a
/// wall and deflected by each paddle that the lookahead position touches; a
/// lookahead position behind a goal line instead puts the ball back at the
/// origin with a fresh unit velocity along `spawn`. The ball is not moved
/// otherwise. Returns the lookahead position.
pub fn collision(
    ball: &mut Ball,
    player1: &Paddle,
    player2: &Paddle,
    time_delta: i64,
    spawn: Vector2,
) -> (predicted: Vector2)
    requires
        old(ball).in_range(),
        player1.in_range(),
        player2.in_range(),
        bounded(time_delta as int, LIMIT as int),
        spawn.in_range(),
        spawn.x != 0 || spawn.y != 0,
    ensures
        predicted@ == lookahead(*old(ball), time_delta as int),
        final(ball).velocity@ == resolved_velocity(
            *old(ball),
            *player1,
            *player2,
            time_delta as int,
            spawn@,
        ),
        final(ball).position@ == resolved_position(*old(ball), time_delta as int),
        final(ball).radius == old(ball).radius,
        final(ball).color == old(ball).color,
        final(ball).velocity@.within(2 * LIMIT),
        beyond_goal(predicted@) ==> near_unit(final(ball).velocity@),
{
    let updated_pos: Vector2 = ball.position.advanced(ball.velocity, time_delta);
    if updated_pos.y < -WALL_BOUND || updated_pos.y > WALL_BOUND {
        ball.velocity.y = -ball.velocity.y;
    }
    if circle_intersect_line(
        updated_pos,
        ball.radius,
        player1.position.offset(PADDLE_HALF_WIDTH, PADDLE_HALF_HEIGHT),
        player1.position.offset(PADDLE_HALF_WIDTH, -PADDLE_HALF_HEIGHT),
    ) {
        ball.velocity = bounce(ball.velocity, player1);
    }
    if circle_intersect_line(
        updated_pos,
        ball.radius,
        player2.position.offset(-PADDLE_HALF_WIDTH, PADDLE_HALF_HEIGHT),
        player2.position.offset(-PADDLE_HALF_WIDTH, -PADDLE_HALF_HEIGHT),
    ) {
        ball.velocity = bounce(ball.velocity, player2);
    }
    if updated_pos.x > GOAL_LINE || updated_pos.x < -GOAL_LINE {
        ball.reset(spawn);
    }
    updated_pos
}

} // verus!

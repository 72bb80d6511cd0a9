//! What holds of every frame: the laws of the court, proved from the
//! definitions that the engine's contracts use.

use crate::collision::{
    beyond_goal, beyond_wall, lookahead, reflected, resolved_position, resolved_velocity,
    touches_left_face, touches_right_face,
};
use crate::controllers::{ai_velocity, user_velocity};
use crate::court::{
    AMPLIFICATION, DEAD_ZONE, PADDLE_BOUND, PADDLE_HALF_HEIGHT, PADDLE_HALF_WIDTH, PADDLE_SPEED,
};
use crate::driver::{Game, Phase};
use crate::entities::{Ball, Movement, Paddle};
use crate::fixed::{lemma_scaled_negated, magnitude, scaled};
use crate::geometry::{lemma_unit_length, lemma_vertical_line, near_unit};
use crate::vector::Point;
use vstd::prelude::*;

verus! {

/// In a frame without a goal in which the ball touches exactly one paddle, the
/// horizontal velocity changes sign, and its magnitude is the old magnitude
/// times the amplification, rounded toward zero.
pub proof fn law_contact_turns_and_amplifies(
    ball: Ball,
    left: Paddle,
    right: Paddle,
    dt: int,
    spawn: Point,
)
    requires
        !beyond_goal(lookahead(ball, dt)),
        touches_right_face(lookahead(ball, dt), ball.radius as int, left) != touches_left_face(
            lookahead(ball, dt),
            ball.radius as int,
            right,
        ),
    ensures
        ({
            let before = ball.velocity@;
            let after = resolved_velocity(ball, left, right, dt, spawn);
            &&& magnitude(after.x) == scaled(magnitude(before.x), AMPLIFICATION as int)
            &&& 101 * magnitude(before.x) - 100 < 100 * magnitude(after.x) <= 101 * magnitude(
                before.x,
            )
            &&& before.x > 0 ==> after.x < 0
            &&& before.x < 0 ==> after.x > 0
        }),
{
    lemma_scaled_negated(ball.velocity.x as int, AMPLIFICATION as int);
}

/// Paddles whose facing sides stand further apart than the ball is wide are
/// never both touched at one position: a frame then has one contact at most.
pub proof fn law_one_contact_at_most(p: Point, radius: int, left: Paddle, right: Paddle)
    requires
        left.position.x + PADDLE_HALF_WIDTH + radius < right.position.x - PADDLE_HALF_WIDTH
            - radius,
    ensures
        !(touches_right_face(p, radius, left) && touches_left_face(p, radius, right)),
{
    lemma_vertical_line(
        p,
        radius,
        left.position@.shifted(PADDLE_HALF_WIDTH as int, PADDLE_HALF_HEIGHT as int),
        left.position@.shifted(PADDLE_HALF_WIDTH as int, -PADDLE_HALF_HEIGHT),
    );
    lemma_vertical_line(
        p,
        radius,
        right.position@.shifted(-PADDLE_HALF_WIDTH, PADDLE_HALF_HEIGHT as int),
        right.position@.shifted(-PADDLE_HALF_WIDTH, -PADDLE_HALF_HEIGHT),
    );
}

/// In a frame without a goal and with exactly one contact, if moreover the
/// ball travels horizontally and the paddle it touches is at rest, the ball's
/// speed after the contact is its speed before times the amplification,
/// rounded toward zero, and it still travels horizontally.
pub proof fn law_contact_scales_speed(
    ball: Ball,
    left: Paddle,
    right: Paddle,
    dt: int,
    spawn: Point,
)
    requires
        !beyond_goal(lookahead(ball, dt)),
        touches_right_face(lookahead(ball, dt), ball.radius as int, left) != touches_left_face(
            lookahead(ball, dt),
            ball.radius as int,
            right,
        ),
        ball.velocity.y == 0,
        touches_right_face(lookahead(ball, dt), ball.radius as int, left) ==> left.velocity.y == 0,
        touches_left_face(lookahead(ball, dt), ball.radius as int, right) ==> right.velocity.y
            == 0,
    ensures
        ({
            let speed = magnitude(ball.velocity.x as int);
            let after = resolved_velocity(ball, left, right, dt, spawn);
            let amplified = scaled(speed, AMPLIFICATION as int);
            &&& ball.velocity@.norm_squared() == speed * speed
            &&& after.norm_squared() == amplified * amplified
            &&& after.y == 0
        }),
{
    law_contact_turns_and_amplifies(ball, left, right, dt, spawn);
    let speed = magnitude(ball.velocity.x as int);
    let after = resolved_velocity(ball, left, right, dt, spawn);
    let amplified = scaled(speed, AMPLIFICATION as int);
    assert(after.y == 0);
    assert(after.y * after.y == 0 && ball.velocity.y * ball.velocity.y == 0) by (nonlinear_arith)
        requires
            after.y == 0,
            ball.velocity.y == 0,
    ;
    assert(after.x * after.x == amplified * amplified) by (nonlinear_arith)
        requires
            after.x == amplified || after.x == -amplified,
    ;
    assert(ball.velocity.x * ball.velocity.x == speed * speed) by (nonlinear_arith)
        requires
            ball.velocity.x == speed || ball.velocity.x == -speed,
    ;
}

/// A frame of an active session whose lookahead position lies beyond a wall,
/// touches no paddle and scores no goal leaves the ball with its vertical
/// velocity negated and its horizontal velocity unchanged.
pub proof fn law_wall_reflects(pre: Game, post: Game, now: u64, movement: Movement, spawn: Point)
    requires
        pre.phase == Phase::Active,
        pre.frame(post, now, movement, spawn),
        beyond_wall(lookahead(pre.ball, pre.elapsed(now))),
        !beyond_goal(lookahead(pre.ball, pre.elapsed(now))),
        !touches_right_face(
            lookahead(pre.ball, pre.elapsed(now)),
            pre.ball.radius as int,
            pre.left,
        ),
        !touches_left_face(
            lookahead(pre.ball, pre.elapsed(now)),
            pre.ball.radius as int,
            pre.right,
        ),
    ensures
        post.ball.velocity.y == -pre.ball.velocity.y,
        post.ball.velocity.x == pre.ball.velocity.x,
        post.ball.velocity@ == reflected(pre.ball.velocity@),
{
}

/// Whenever the lookahead position lies behind a goal line, the contacts
/// resolve to a ball at the origin whose velocity has unit length, up to the
/// rounding of its components.
pub proof fn law_goal_resets(ball: Ball, left: Paddle, right: Paddle, dt: int, spawn: Point)
    requires
        beyond_goal(lookahead(ball, dt)),
        spawn.x != 0 || spawn.y != 0,
    ensures
        resolved_position(ball, dt) == (Point { x: 0, y: 0 }),
        near_unit(resolved_velocity(ball, left, right, dt, spawn)),
{
    lemma_unit_length(spawn);
}

/// The AI paddle rests while the ball is within the dead zone of its height.
/// Outside the dead zone it moves toward the ball at full speed, unless it has
/// reached the bound on the ball's side.
pub proof fn law_ai_tracks(ball_y: int, y: int)
    ensures
        magnitude(ball_y - y) < DEAD_ZONE ==> ai_velocity(ball_y, y) == 0,
        ball_y - y >= DEAD_ZONE && y < PADDLE_BOUND ==> ai_velocity(ball_y, y) == PADDLE_SPEED,
        ball_y - y <= -DEAD_ZONE && y > -PADDLE_BOUND ==> ai_velocity(ball_y, y) == -PADDLE_SPEED,
{
}

/// Neither controller drives a paddle further out once it has reached the
/// bound on that side.
pub proof fn law_controllers_halt_at_bound(movement: Movement, ball_y: int, y: int)
    ensures
        y >= PADDLE_BOUND ==> user_velocity(movement, y) <= 0 && ai_velocity(ball_y, y) <= 0,
        y <= -PADDLE_BOUND ==> user_velocity(movement, y) >= 0 && ai_velocity(ball_y, y) >= 0,
{
}

/// A frame of an active session keeps paddles without horizontal velocity at
/// their horizontal stations, and leaves each paddle at rest or at full
/// vertical speed.
pub proof fn law_paddles_keep_their_station(
    pre: Game,
    post: Game,
    now: u64,
    movement: Movement,
    spawn: Point,
)
    requires
        pre.phase == Phase::Active,
        pre.frame(post, now, movement, spawn),
        pre.left.velocity.x == 0,
        pre.right.velocity.x == 0,
    ensures
        post.left.position.x == pre.left.position.x,
        post.right.position.x == pre.right.position.x,
        post.left.velocity.x == 0,
        post.right.velocity.x == 0,
        magnitude(post.left.velocity.y as int) == 0 || magnitude(post.left.velocity.y as int)
            == PADDLE_SPEED,
        magnitude(post.right.velocity.y as int) == 0 || magnitude(post.right.velocity.y as int)
            == PADDLE_SPEED,
{
    assert(0 * pre.elapsed(now) == 0) by (nonlinear_arith);
}

/// However long a session was hidden, the first frame after it is shown
/// again steps over the time since it was shown, and no more. While hidden, a
/// frame changes nothing.
pub proof fn law_resume_rebaselines(
    game: Game,
    hidden_at: u64,
    shown_at: u64,
    now: u64,
    movement: Movement,
    spawn: Point,
    post: Game,
)
    ensures
        game.rebased(false, hidden_at).rebased(true, shown_at).elapsed(now) == now - shown_at,
        game.rebased(false, hidden_at).rebased(true, shown_at).phase == Phase::Active,
        game.rebased(false, hidden_at).frame(post, now, movement, spawn) ==> post == game.rebased(
            false,
            hidden_at,
        ),
{
}

} // verus!

use pong::collision::collision;
use pong::controllers::{move_ai, move_user};
use pong::court::{BALL_RADIUS, KEY_DOWN, KEY_UP};
use pong::driver::{Game, Phase};
use pong::entities::{Ball, Color, Movement, Paddle};
use pong::fixed::{LIMIT, UNIT};
use pong::vector::Vector2;

fn grey() -> Color {
    Color { red: 128, green: 128, blue: 128, alpha: 255 }
}

fn ball_at(position: (i64, i64), velocity: (i64, i64)) -> Ball {
    Ball {
        position: Vector2::new(position.0, position.1),
        velocity: Vector2::new(velocity.0, velocity.1),
        radius: BALL_RADIUS,
        color: grey(),
    }
}

fn paddles() -> (Paddle, Paddle) {
    (Paddle::new((-900_000, 0), grey()), Paddle::new((900_000, 0), grey()))
}

fn game_with(ball: Ball) -> Game {
    let mut game = Game::new(Vector2::new(1, 0), 0);
    game.ball = ball;
    game
}

#[test]
fn goal_resets_the_ball() {
    let mut ball = ball_at((970_000, 0), (600_000, 0));
    let (left, right) = paddles();
    let predicted = collision(&mut ball, &left, &right, 100_000, Vector2::new(3, 4));
    assert_eq!(predicted, Vector2::new(1_030_000, 0));
    assert_eq!(ball.position, Vector2::new(0, 0));
    assert_eq!(ball.velocity, Vector2::new(600_000, 800_000));
    let speed_squared = (ball.velocity.x as i128).pow(2) + (ball.velocity.y as i128).pow(2);
    assert_eq!(speed_squared, (UNIT as i128) * (UNIT as i128));
    assert_eq!(ball.radius, BALL_RADIUS);
    assert_eq!(ball.color, grey());
}

#[test]
fn goal_on_the_left_resets_too() {
    let mut ball = ball_at((-970_000, 300_000), (-600_000, 200_000));
    let (left, right) = paddles();
    let predicted = collision(&mut ball, &left, &right, 100_000, Vector2::new(-1, 1));
    assert_eq!(predicted, Vector2::new(-1_030_000, 320_000));
    assert_eq!(ball.position, Vector2::new(0, 0));
    assert_eq!(ball.velocity, Vector2::new(-707_107, 707_107));
}

#[test]
fn goal_line_itself_is_no_goal() {
    let mut ball = ball_at((940_000, 0), (600_000, 0));
    let (left, right) = paddles();
    let predicted = collision(&mut ball, &left, &right, 100_000, Vector2::new(3, 4));
    assert_eq!(predicted, Vector2::new(1_000_000, 0));
    assert_eq!(ball.position, Vector2::new(940_000, 0));
    assert_eq!(ball.velocity, Vector2::new(600_000, 0));
}

#[test]
fn goal_frame_travels_from_the_origin() {
    let mut game = game_with(ball_at((970_000, 0), (600_000, 0)));
    game.tick(100_000, Movement::Idle, Vector2::new(3, 4));
    assert_eq!(game.ball.velocity, Vector2::new(600_000, 800_000));
    assert_eq!(game.ball.position, Vector2::new(60_000, 80_000));
}

#[test]
fn wall_reflects_the_ball() {
    let mut game = game_with(ball_at((0, 550_000), (0, 300_000)));
    game.tick(100_000, Movement::Idle, Vector2::new(1, 0));
    assert_eq!(game.ball.velocity, Vector2::new(0, -300_000));
    assert_eq!(game.ball.position, Vector2::new(0, 520_000));
    assert_eq!(game.last_time, 100_000);
}

#[test]
fn bottom_wall_reflects_and_keeps_the_horizontal_velocity() {
    let mut ball = ball_at((100_000, -540_000), (250_000, -200_000));
    let (left, right) = paddles();
    let predicted = collision(&mut ball, &left, &right, 100_000, Vector2::new(1, 0));
    assert_eq!(predicted, Vector2::new(125_000, -560_000));
    assert_eq!(ball.velocity, Vector2::new(250_000, 200_000));
    assert_eq!(ball.position, Vector2::new(100_000, -540_000));
}

#[test]
fn wall_bound_itself_does_not_reflect() {
    let mut ball = ball_at((0, 522_000), (0, 300_000));
    let (left, right) = paddles();
    let predicted = collision(&mut ball, &left, &right, 100_000, Vector2::new(1, 0));
    assert_eq!(predicted, Vector2::new(0, 552_000));
    assert_eq!(ball.velocity, Vector2::new(0, 300_000));
}

#[test]
fn right_paddle_turns_and_speeds_up_the_ball() {
    let mut ball = ball_at((850_000, 0), (300_000, 0));
    let (left, right) = paddles();
    let predicted = collision(&mut ball, &left, &right, 100_000, Vector2::new(1, 0));
    assert_eq!(predicted, Vector2::new(880_000, 0));
    assert_eq!(ball.velocity, Vector2::new(-303_000, 0));
    assert_eq!(ball.position, Vector2::new(850_000, 0));
}

#[test]
fn left_paddle_hands_its_motion_to_the_ball() {
    let mut ball = ball_at((-850_000, 0), (-300_000, 50_000));
    let (mut left, right) = paddles();
    left.velocity.y = -500_000;
    let predicted = collision(&mut ball, &left, &right, 100_000, Vector2::new(1, 0));
    assert_eq!(predicted, Vector2::new(-880_000, 5_000));
    assert_eq!(ball.velocity, Vector2::new(303_000, -50_000));
}

#[test]
fn paddle_contact_reaches_to_the_edge_of_the_ball() {
    let (left, right) = paddles();
    let mut grazing = ball_at((850_000, 125_000), (500_000, 0));
    collision(&mut grazing, &left, &right, 100_000, Vector2::new(1, 0));
    assert_eq!(grazing.velocity, Vector2::new(-505_000, 0));
    let mut passing = ball_at((850_000, 125_001), (500_000, 0));
    collision(&mut passing, &left, &right, 100_000, Vector2::new(1, 0));
    assert_eq!(passing.velocity, Vector2::new(500_000, 0));
    let mut short = ball_at((800_000, 0), (499_990, 0));
    collision(&mut short, &left, &right, 100_000, Vector2::new(1, 0));
    assert_eq!(short.velocity, Vector2::new(499_990, 0));
}

#[test]
fn paddle_contact_frame_travels_at_the_new_velocity() {
    let mut game = game_with(ball_at((850_000, 0), (300_000, 0)));
    game.right.velocity.y = 500_000;
    game.tick(100_000, Movement::Idle, Vector2::new(1, 0));
    assert_eq!(game.ball.velocity, Vector2::new(-303_000, 100_000));
    assert_eq!(game.ball.position, Vector2::new(819_700, 10_000));
    assert_eq!(game.right.position, Vector2::new(900_000, 50_000));
}

#[test]
fn user_paddle_stops_at_the_bound() {
    let mut paddle = Paddle::new((-900_000, 470_000), grey());
    move_user(&mut paddle, Movement::Up);
    assert_eq!(paddle.velocity.y, 0);
    let mut paddle = Paddle::new((-900_000, 460_000), grey());
    move_user(&mut paddle, Movement::Up);
    assert_eq!(paddle.velocity.y, 500_000);
    assert_eq!(paddle.velocity.x, 0);
    assert_eq!(paddle.position, Vector2::new(-900_000, 460_000));
}

#[test]
fn user_paddle_moves_down_and_rests() {
    let mut paddle = Paddle::new((-900_000, -470_000), grey());
    move_user(&mut paddle, Movement::Down);
    assert_eq!(paddle.velocity.y, 0);
    move_user(&mut paddle, Movement::Up);
    assert_eq!(paddle.velocity.y, 500_000);
    let mut paddle = Paddle::new((-900_000, -469_999), grey());
    move_user(&mut paddle, Movement::Down);
    assert_eq!(paddle.velocity.y, -500_000);
    move_user(&mut paddle, Movement::Idle);
    assert_eq!(paddle.velocity.y, 0);
}

#[test]
fn ai_paddle_rests_in_the_dead_zone() {
    let mut paddle = Paddle::new((900_000, 40_000), grey());
    paddle.velocity.y = 500_000;
    move_ai(&ball_at((0, 0), (1, 0)), &mut paddle);
    assert_eq!(paddle.velocity.y, 0);
    paddle.velocity.y = -500_000;
    move_ai(&ball_at((0, 89_999), (1, 0)), &mut paddle);
    assert_eq!(paddle.velocity.y, 0);
}

#[test]
fn ai_paddle_follows_the_ball() {
    let mut paddle = Paddle::new((900_000, 0), grey());
    move_ai(&ball_at((0, 100_000), (1, 0)), &mut paddle);
    assert_eq!(paddle.velocity.y, 500_000);
    move_ai(&ball_at((0, -100_000), (1, 0)), &mut paddle);
    assert_eq!(paddle.velocity.y, -500_000);
    move_ai(&ball_at((0, 50_000), (1, 0)), &mut paddle);
    assert_eq!(paddle.velocity.y, 500_000);
    move_ai(&ball_at((0, -50_000), (1, 0)), &mut paddle);
    assert_eq!(paddle.velocity.y, -500_000);
    assert_eq!(paddle.velocity.x, 0);
    assert_eq!(paddle.position, Vector2::new(900_000, 0));
}

#[test]
fn ai_paddle_stops_at_the_bound() {
    let mut paddle = Paddle::new((900_000, 470_000), grey());
    paddle.velocity.y = 500_000;
    move_ai(&ball_at((0, 552_000), (1, 0)), &mut paddle);
    assert_eq!(paddle.velocity.y, 0);
    move_ai(&ball_at((0, 0), (1, 0)), &mut paddle);
    assert_eq!(paddle.velocity.y, -500_000);
    let mut paddle = Paddle::new((900_000, -470_000), grey());
    paddle.velocity.y = -500_000;
    move_ai(&ball_at((0, -552_000), (1, 0)), &mut paddle);
    assert_eq!(paddle.velocity.y, 0);
}

#[test]
fn keys_set_and_clear_the_pending_movement() {
    assert_eq!(Movement::Idle.key_down(KEY_UP), Movement::Up);
    assert_eq!(Movement::Idle.key_down(KEY_DOWN), Movement::Down);
    assert_eq!(Movement::Up.key_down(KEY_DOWN), Movement::Down);
    assert_eq!(Movement::Down.key_down(65), Movement::Down);
    assert_eq!(Movement::Up.key_up(KEY_UP), Movement::Idle);
    assert_eq!(Movement::Down.key_up(KEY_DOWN), Movement::Idle);
    assert_eq!(Movement::Up.key_up(KEY_DOWN), Movement::Up);
    assert_eq!(Movement::Down.key_up(KEY_UP), Movement::Down);
    assert_eq!(Movement::Idle.key_up(KEY_UP), Movement::Idle);
    assert_eq!(Movement::Up.key_up(65), Movement::Up);
    assert_eq!(KEY_UP, 87);
    assert_eq!(KEY_DOWN, 83);
}

#[test]
fn new_game_sets_the_court() {
    let game = Game::new(Vector2::new(0, -5), 1_234);
    assert_eq!(game.phase, Phase::Active);
    assert_eq!(game.last_time, 1_234);
    assert_eq!(game.ball.position, Vector2::new(0, 0));
    assert_eq!(game.ball.velocity, Vector2::new(0, -1_000_000));
    assert_eq!(game.ball.radius, 25_000);
    assert_eq!(game.ball.color, Color { red: 255, green: 255, blue: 255, alpha: 255 });
    assert_eq!(game.left.position, Vector2::new(-900_000, 0));
    assert_eq!(game.left.velocity, Vector2::new(0, 0));
    assert_eq!(game.left.color, Color { red: 255, green: 0, blue: 0, alpha: 255 });
    assert_eq!(game.right.position, Vector2::new(900_000, 0));
    assert_eq!(game.right.velocity, Vector2::new(0, 0));
    assert_eq!(game.right.color, Color { red: 0, green: 0, blue: 255, alpha: 255 });
}

#[test]
fn ball_new_and_reset_start_from_the_origin() {
    let mut ball = Ball::new(25_000, grey(), Vector2::new(-4, 3));
    assert_eq!(ball.position, Vector2::new(0, 0));
    assert_eq!(ball.velocity, Vector2::new(-800_000, 600_000));
    assert_eq!(ball.radius, 25_000);
    ball.position = Vector2::new(990_000, -3);
    ball.reset(Vector2::new(0, 2));
    assert_eq!(ball.position, Vector2::new(0, 0));
    assert_eq!(ball.velocity, Vector2::new(0, 1_000_000));
    assert_eq!(ball.radius, 25_000);
    assert_eq!(ball.color, grey());
}

#[test]
fn paddle_moves_with_the_velocity_of_the_frame_before() {
    let mut game = game_with(ball_at((0, 0), (100_000, 0)));
    game.tick(100_000, Movement::Up, Vector2::new(1, 0));
    assert_eq!(game.left.position, Vector2::new(-900_000, 0));
    assert_eq!(game.left.velocity, Vector2::new(0, 500_000));
    game.tick(200_000, Movement::Idle, Vector2::new(1, 0));
    assert_eq!(game.left.position, Vector2::new(-900_000, 50_000));
    assert_eq!(game.left.velocity, Vector2::new(0, 0));
    game.tick(300_000, Movement::Down, Vector2::new(1, 0));
    assert_eq!(game.left.position, Vector2::new(-900_000, 50_000));
    assert_eq!(game.left.velocity, Vector2::new(0, -500_000));
}

#[test]
fn ai_paddle_is_steered_by_the_moved_ball() {
    let mut game = game_with(ball_at((0, 40_000), (0, 200_000)));
    game.tick(100_000, Movement::Idle, Vector2::new(1, 0));
    assert_eq!(game.ball.position, Vector2::new(0, 60_000));
    assert_eq!(game.right.velocity, Vector2::new(0, 500_000));
    assert_eq!(game.right.position, Vector2::new(900_000, 0));
}

#[test]
fn resume_measures_time_from_the_moment_of_return() {
    let mut game = game_with(ball_at((0, 0), (1_000_000, 0)));
    game.tick(16_000, Movement::Idle, Vector2::new(1, 0));
    assert_eq!(game.ball.position, Vector2::new(16_000, 0));
    game.visibility_changed(false, 20_000);
    assert_eq!(game.phase, Phase::Suspended);
    assert_eq!(game.last_time, 16_000);
    game.visibility_changed(true, 3_600_000_000);
    assert_eq!(game.phase, Phase::Active);
    assert_eq!(game.last_time, 3_600_000_000);
    game.tick(3_600_016_000, Movement::Idle, Vector2::new(1, 0));
    assert_eq!(game.ball.position, Vector2::new(32_000, 0));
    assert_eq!(game.last_time, 3_600_016_000);
}

#[test]
fn suspended_game_does_not_advance() {
    let mut game = game_with(ball_at((0, 0), (1_000_000, 0)));
    game.visibility_changed(false, 5);
    let before = game;
    game.tick(1_000_000, Movement::Up, Vector2::new(1, 0));
    assert_eq!(game, before);
    assert!(game.step(2_000_000, Movement::Up, Vector2::new(0, 0)));
    assert_eq!(game, before);
}

#[test]
fn step_takes_a_frame_when_it_can() {
    let mut stepped = game_with(ball_at((0, 550_000), (0, 300_000)));
    let mut ticked = stepped;
    assert!(stepped.is_ready(100_000, Vector2::new(1, 0)));
    assert!(stepped.step(100_000, Movement::Up, Vector2::new(1, 0)));
    ticked.tick(100_000, Movement::Up, Vector2::new(1, 0));
    assert_eq!(stepped, ticked);
    assert_eq!(stepped.ball.position, Vector2::new(0, 520_000));
}

#[test]
fn step_refuses_a_clock_that_ran_backwards() {
    let mut game = Game::new(Vector2::new(1, 0), 500);
    let before = game;
    assert!(!game.is_ready(499, Vector2::new(1, 0)));
    assert!(!game.step(499, Movement::Up, Vector2::new(1, 0)));
    assert_eq!(game, before);
    assert!(game.step(500, Movement::Up, Vector2::new(1, 0)));
    assert_eq!(game.ball.position, Vector2::new(0, 0));
}

#[test]
fn step_refuses_what_is_out_of_range() {
    let mut game = Game::new(Vector2::new(1, 0), 0);
    let before = game;
    assert!(!game.step(LIMIT as u64 + 1, Movement::Idle, Vector2::new(1, 0)));
    assert!(!game.step(10, Movement::Idle, Vector2::new(0, 0)));
    assert!(!game.step(10, Movement::Idle, Vector2::new(LIMIT + 1, 0)));
    assert_eq!(game, before);
    game.ball.velocity.x = LIMIT + 1;
    assert!(!game.ball.is_in_range());
    assert!(!game.step(10, Movement::Idle, Vector2::new(1, 0)));
    game.ball.velocity.x = LIMIT;
    game.right.position.y = -LIMIT - 1;
    assert!(!game.right.is_in_range());
    assert!(!game.step(10, Movement::Idle, Vector2::new(1, 0)));
    game.right.position.y = -LIMIT;
    assert!(game.step(LIMIT as u64, Movement::Idle, Vector2::new(1, 0)));
}

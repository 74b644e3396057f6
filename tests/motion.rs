use kpong::control::{enemy_direction, player_direction};
use kpong::entities::{Ball, Paddle, RoundTimer, Score, Side};
use kpong::geometry::{
    clamp, cosine_of, scale, sine_of, wrap, FULL_TURN, HALF_TURN, MAX_DEFLECTION, QUARTER_TURN,
    UNIT,
};
use kpong::motion::{collide_with_paddle, goal_scorer, move_ball, move_paddle};

fn paddle(x: i64, y: i64) -> Paddle {
    Paddle { x, y, dir: 0 }
}

#[test]
fn clamp_keeps_values_in_range() {
    assert_eq!(clamp(5, 0, 3), 3);
    assert_eq!(clamp(-1, 0, 3), 0);
    assert_eq!(clamp(2, 0, 3), 2);
}

#[test]
fn player_direction_prefers_down() {
    assert_eq!(player_direction(false, false), 0);
    assert_eq!(player_direction(true, false), 1);
    assert_eq!(player_direction(false, true), -1);
    assert_eq!(player_direction(true, true), -1);
}

#[test]
fn enemy_direction_tracks_ball() {
    assert_eq!(enemy_direction(10, 0), 1);
    assert_eq!(enemy_direction(-5, 0), -1);
    assert_eq!(enemy_direction(7, 7), 0);
}

#[test]
fn sine_and_cosine_values() {
    assert_eq!(sine_of(0), 0);
    assert_eq!(cosine_of(0), UNIT);
    assert_eq!(sine_of(QUARTER_TURN), UNIT);
    assert_eq!(cosine_of(QUARTER_TURN), 0);
    assert_eq!(cosine_of(HALF_TURN), -UNIT);
    assert_eq!(sine_of(HALF_TURN), 0);
    assert_eq!(sine_of(3 * QUARTER_TURN), -UNIT);
    assert_eq!(sine_of(MAX_DEFLECTION), 705_882);
    assert_eq!(cosine_of(MAX_DEFLECTION), 705_882);
    assert_eq!(sine_of(16_000), 383_561);
    assert_eq!(cosine_of(16_000), 923_076);
}

#[test]
fn wrap_takes_angles_modulo_a_turn() {
    assert_eq!(wrap(-1), FULL_TURN - 1);
    assert_eq!(wrap(FULL_TURN), 0);
    assert_eq!(wrap(5), 5);
}

#[test]
fn scale_rounds_toward_zero() {
    assert_eq!(scale(1000, 500_000), 500);
    assert_eq!(scale(1000, -500_000), -500);
    assert_eq!(scale(3, 333_333), 0);
    assert_eq!(scale(3, -333_333), 0);
    assert_eq!(scale(7, -UNIT), -7);
}

#[test]
fn paddle_moves_and_stops_at_walls() {
    let mut p = Paddle { x: -252_000, y: 0, dir: 1 };
    move_paddle(&mut p, 16);
    assert_eq!(p.y, 2048);
    let mut top = Paddle { x: -252_000, y: 220_000, dir: 1 };
    move_paddle(&mut top, 1000);
    assert_eq!(top.y, 224_000);
    let mut bottom = Paddle { x: 252_000, y: -220_000, dir: -1 };
    move_paddle(&mut bottom, 1000);
    assert_eq!(bottom.y, -224_000);
    let mut still = Paddle { x: 252_000, y: 1234, dir: 0 };
    move_paddle(&mut still, 1000);
    assert_eq!(still.y, 1234);
}

#[test]
fn ball_bounces_off_top_wall() {
    let mut b = Ball { x: 0, y: 250_000, speed: 256, heading: 16_000 };
    let before = b.velocity();
    assert_eq!(before, (256 * 923_076, 256 * 383_561));
    let s = move_ball(&mut b, &paddle(-252_000, 0), &paddle(252_000, 0), 100);
    assert_eq!(s, None);
    assert_eq!(b.x, 23_630);
    assert_eq!(b.y, 252_000);
    assert_eq!(b.heading, FULL_TURN - 16_000);
    assert_eq!(b.velocity(), (before.0, -before.1));
}

#[test]
fn ball_flies_straight_without_collision() {
    let mut b = Ball { x: 0, y: 0, speed: 256, heading: HALF_TURN };
    let s = move_ball(&mut b, &paddle(-252_000, 0), &paddle(252_000, 0), 16);
    assert_eq!(s, None);
    assert_eq!(b, Ball { x: -4096, y: 0, speed: 256, heading: HALF_TURN });
}

#[test]
fn center_hit_returns_ball_straight() {
    let mut b = Ball { x: -240_000, y: 10_000, speed: 256, heading: HALF_TURN };
    let s = move_ball(&mut b, &paddle(-252_000, 10_000), &paddle(252_000, 0), 20);
    assert_eq!(s, None);
    assert_eq!(b.x, -245_120);
    assert_eq!(b.heading, 0);
    assert_eq!(b.velocity(), (256 * UNIT, 0));
}

#[test]
fn edge_hit_above_deflects_45_degrees_up() {
    let mut b = Ball { x: -240_000, y: 10_000, speed: 256, heading: HALF_TURN };
    let s = move_ball(&mut b, &paddle(-252_000, -22_000), &paddle(252_000, 0), 20);
    assert_eq!(s, None);
    assert_eq!(b.heading, MAX_DEFLECTION);
    assert_eq!(b.velocity(), (256 * 705_882, 256 * 705_882));
    assert_eq!(b.speed, 256);
}

#[test]
fn edge_hit_below_deflects_45_degrees_down() {
    let mut b = Ball { x: -240_000, y: 10_000, speed: 256, heading: HALF_TURN };
    move_ball(&mut b, &paddle(-252_000, 42_000), &paddle(252_000, 0), 20);
    assert_eq!(b.heading, FULL_TURN - MAX_DEFLECTION);
    assert_eq!(b.velocity(), (256 * 705_882, -256 * 705_882));
}

#[test]
fn ball_beside_paddle_span_is_not_returned() {
    let mut b = Ball { x: -243_000, y: 100_000, speed: 256, heading: HALF_TURN };
    collide_with_paddle(&mut b, -243_000 + 5120, &paddle(-252_000, 0));
    assert_eq!(b.heading, HALF_TURN);
}

#[test]
fn collision_from_the_left_face() {
    let mut b = Ball { x: 245_000, y: 0, speed: 256, heading: 0 };
    collide_with_paddle(&mut b, 243_000, &paddle(252_000, 0));
    assert_eq!(b.heading, HALF_TURN);
}

#[test]
fn left_goal_line_scores_for_player() {
    let mut b = Ball { x: -250_000, y: 200_000, speed: 256, heading: HALF_TURN };
    let s = move_ball(&mut b, &paddle(-252_000, 0), &paddle(252_000, 0), 20);
    assert_eq!(b.x, -255_120);
    assert_eq!(s, Some(Side::Player));
}

#[test]
fn right_goal_line_scores_for_enemy() {
    let mut b = Ball { x: 250_000, y: 200_000, speed: 256, heading: 0 };
    let s = move_ball(&mut b, &paddle(-252_000, 0), &paddle(252_000, 0), 20);
    assert_eq!(b.x, 255_120);
    assert_eq!(s, Some(Side::Enemy));
}

#[test]
fn goal_scorer_on_the_lines() {
    let on_left = Ball { x: -252_000, y: 0, speed: 0, heading: 0 };
    assert_eq!(goal_scorer(&on_left), Some(Side::Player));
    let on_right = Ball { x: 252_000, y: 0, speed: 0, heading: 0 };
    assert_eq!(goal_scorer(&on_right), Some(Side::Enemy));
    let inside = Ball { x: 251_999, y: 0, speed: 0, heading: 0 };
    assert_eq!(goal_scorer(&inside), None);
}

#[test]
fn defaults_are_zero() {
    assert_eq!(Paddle::default(), Paddle { x: 0, y: 0, dir: 0 });
    assert_eq!(Ball::default(), Ball { x: 0, y: 0, speed: 0, heading: 0 });
    assert_eq!(Score::default(), Score { player: 0, enemy: 0 });
    assert_eq!(RoundTimer::default().elapsed_ms, 0);
    assert_eq!(Ball::default().velocity(), (0, 0));
}

#[test]
fn round_timer_counts_to_its_duration() {
    let mut t = RoundTimer::default();
    assert!(!t.advance(999));
    assert_eq!(t.elapsed_ms, 999);
    assert!(t.advance(5000));
    assert_eq!(t.elapsed_ms, 1000);
    t.reset();
    assert_eq!(t.elapsed_ms, 0);
}

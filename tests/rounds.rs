use kpong::entities::{Ball, Paddle, RoundState, RoundTimer, Score, BALL_SPEED};
use kpong::game::{Game, ENEMY_X, PLAYER_X};
use kpong::geometry::{HALF_TURN, UNIT};

fn playing(ball: Ball, player_y: i64, enemy_y: i64) -> Game {
    Game {
        state: RoundState::Started,
        player: Paddle { x: PLAYER_X, y: player_y, dir: 0 },
        enemy: Paddle { x: ENEMY_X, y: enemy_y, dir: 0 },
        ball,
        score: Score { player: 3, enemy: 5 },
        timer: RoundTimer { elapsed_ms: 1000 },
    }
}

#[test]
fn new_game_serves_from_the_center() {
    let g = Game::new();
    assert_eq!(g.state, RoundState::Serving);
    assert_eq!(g.ball, Ball { x: 0, y: 0, speed: 0, heading: 0 });
    assert_eq!(g.player, Paddle { x: -252_000, y: 0, dir: 0 });
    assert_eq!(g.enemy, Paddle { x: 252_000, y: 0, dir: 0 });
    assert_eq!(g.score, Score { player: 0, enemy: 0 });
}

#[test]
fn serving_waits_for_the_player() {
    let mut g = Game::new();
    g.tick(false, false, 16);
    assert_eq!(g.state, RoundState::Serving);
    assert_eq!(g.ball, Ball::default());
    assert_eq!(g.player.y, 0);
}

#[test]
fn first_move_launches_the_ball_left() {
    let mut g = Game::new();
    g.tick(true, false, 16);
    assert_eq!(g.state, RoundState::Started);
    assert_eq!(g.player.dir, 1);
    assert_eq!(g.player.y, 2048);
    assert_eq!(g.ball, Ball { x: 0, y: 0, speed: BALL_SPEED, heading: HALF_TURN });
    assert_eq!(g.ball.velocity(), (-256 * UNIT, 0));

    let mut h = Game::new();
    h.tick(false, true, 16);
    assert_eq!(h.state, RoundState::Started);
    assert_eq!(h.player.y, -2048);
}

#[test]
fn ball_moves_while_in_play() {
    let mut g = Game::new();
    g.tick(true, false, 0);
    g.tick(false, false, 16);
    assert_eq!(g.state, RoundState::Started);
    assert_eq!(g.ball.x, -4096);
    assert_eq!(g.ball.y, 0);
    assert_eq!(g.enemy.dir, 0);
}

#[test]
fn enemy_tracks_the_ball_in_play() {
    let ball = Ball { x: 0, y: 50_000, speed: 256, heading: HALF_TURN };
    let mut g = playing(ball, 0, 0);
    g.tick(false, false, 16);
    assert_eq!(g.enemy.dir, 1);
    assert_eq!(g.enemy.y, 2048);
    let mut h = playing(Ball { y: -50_000, ..ball }, 0, 0);
    h.tick(false, false, 16);
    assert_eq!(h.enemy.dir, -1);
    assert_eq!(h.enemy.y, -2048);
}

#[test]
fn enemy_stays_still_while_serving() {
    let mut g = Game::new();
    g.tick(false, false, 16);
    assert_eq!(g.enemy.dir, 0);
    assert_eq!(g.enemy.y, 0);
}

#[test]
fn left_goal_scores_for_player_and_ends_round() {
    let ball = Ball { x: -250_000, y: 0, speed: 256, heading: HALF_TURN };
    let mut g = playing(ball, 200_000, 0);
    g.tick(false, false, 20);
    assert_eq!(g.state, RoundState::RoundOver);
    assert_eq!(g.score, Score { player: 4, enemy: 5 });
    assert_eq!(g.enemy.dir, 0);
    assert_eq!(g.timer.elapsed_ms, 0);
}

#[test]
fn right_goal_scores_for_enemy_and_ends_round() {
    let ball = Ball { x: 250_000, y: 0, speed: 256, heading: 0 };
    let mut g = playing(ball, 0, 200_000);
    g.tick(false, false, 20);
    assert_eq!(g.state, RoundState::RoundOver);
    assert_eq!(g.score, Score { player: 3, enemy: 6 });
    assert_eq!(g.enemy.dir, 0);
}

#[test]
fn no_goal_keeps_the_round_going() {
    let ball = Ball { x: 100_000, y: 0, speed: 256, heading: 0 };
    let mut g = playing(ball, 0, 0);
    g.tick(false, false, 20);
    assert_eq!(g.state, RoundState::Started);
    assert_eq!(g.score, Score { player: 3, enemy: 5 });
}

#[test]
fn pause_ends_exactly_after_one_second() {
    let ball = Ball { x: -260_000, y: 1000, speed: 256, heading: HALF_TURN };
    let mut g = Game {
        state: RoundState::RoundOver,
        player: Paddle { x: PLAYER_X, y: 5000, dir: 0 },
        enemy: Paddle { x: ENEMY_X, y: -7000, dir: 0 },
        ball,
        score: Score { player: 1, enemy: 0 },
        timer: RoundTimer { elapsed_ms: 0 },
    };
    g.tick(false, false, 999);
    assert_eq!(g.state, RoundState::RoundOver);
    assert_eq!(g.timer.elapsed_ms, 999);
    assert_eq!(g.ball, ball);
    g.tick(false, false, 1);
    assert_eq!(g.state, RoundState::Serving);
    assert_eq!(g.ball, Ball { x: 0, y: 0, speed: 0, heading: 0 });
    assert_eq!(g.ball.velocity(), (0, 0));
    assert_eq!(g.player, Paddle { x: PLAYER_X, y: 0, dir: 0 });
    assert_eq!(g.enemy, Paddle { x: ENEMY_X, y: 0, dir: 0 });
    assert_eq!(g.score, Score { player: 1, enemy: 0 });
}

#[test]
fn player_moves_during_pause_but_ball_does_not() {
    let ball = Ball { x: 260_000, y: 0, speed: 256, heading: 0 };
    let mut g = Game {
        state: RoundState::RoundOver,
        player: Paddle { x: PLAYER_X, y: 0, dir: 0 },
        enemy: Paddle { x: ENEMY_X, y: 0, dir: 0 },
        ball,
        score: Score { player: 0, enemy: 1 },
        timer: RoundTimer { elapsed_ms: 0 },
    };
    g.tick(true, false, 100);
    assert_eq!(g.state, RoundState::RoundOver);
    assert_eq!(g.player.y, 12_800);
    assert_eq!(g.ball, ball);
}

#[test]
fn zero_time_changes_no_position_or_velocity() {
    let ball = Ball { x: 12_345, y: -6789, speed: 256, heading: 40_000 };
    let mut g = playing(ball, 30_000, -40_000);
    let before = g;
    g.tick(true, false, 0);
    assert_eq!(g.ball, before.ball);
    assert_eq!(g.ball.velocity(), before.ball.velocity());
    assert_eq!(g.player.y, before.player.y);
    assert_eq!(g.enemy.y, before.enemy.y);
    assert_eq!(g.state, RoundState::Started);

    let mut s = Game::new();
    s.tick(false, false, 0);
    assert_eq!(s, Game::new());
}

#[test]
fn game_over_is_never_left() {
    let mut g = Game::new();
    g.state = RoundState::GameOver;
    g.tick(true, false, 16);
    assert_eq!(g.state, RoundState::GameOver);
    assert_eq!(g.player.y, 2048);
    assert_eq!(g.ball, Ball::default());
}

#[test]
fn ball_served_at_player_comes_straight_back() {
    let mut g = Game::new();
    g.tick(true, false, 0);
    assert_eq!(g.state, RoundState::Started);
    assert_eq!(g.player.y, g.ball.y);
    let mut ticks = 0;
    while g.ball.velocity().0 < 0 {
        assert!(ticks < 100);
        g.tick(false, false, 16);
        ticks += 1;
    }
    assert_eq!(ticks, 60);
    assert_eq!(g.ball.x, -245_760);
    assert_eq!(g.state, RoundState::Started);
    assert_eq!(g.ball.velocity(), (256 * UNIT, 0));
    assert_eq!(g.ball.heading, 0);
    assert_eq!(g.score, Score { player: 0, enemy: 0 });
}

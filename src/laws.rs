//! Properties of the simulation that hold for every state and every input.
use vstd::prelude::*;
use crate::control::{enemy_dir, player_dir};
use crate::entities::{BALL_SPEED, ROUND_OVER_MS, Ball, Paddle, RoundState};
use crate::game::{Game, paddles_ticked, ticked};
use crate::geometry::{
    BALL_HALF_SIZE, COURT_HALF_HEIGHT, COURT_HALF_WIDTH, FULL_TURN, MAX_DEFLECTION, MAX_TRAVEL,
    PADDLE_HALF_HEIGHT, cosine, is_angle, lemma_mirror_angle, lemma_negate_angle,
    lemma_scaled_bounds, lemma_sine_cosine_bounds, sine, wrap_angle,
};
use crate::motion::{
    after_paddle, ball_integrated, ball_moved, beyond_wall, deflected, deflection,
    hits_paddle, paddle_moved, reversed, scorer, wall_bounced,
};

verus! {

proof fn lemma_paddle_moved_wf(p: Paddle, dt_ms: u32)
    requires
        p.wf(),
    ensures
        paddle_moved(p, dt_ms).wf(),
        paddle_moved(p, dt_ms).x == p.x,
        paddle_moved(p, dt_ms).dir == p.dir,
{
}

proof fn lemma_ball_moved_wf(b: Ball, player: Paddle, enemy: Paddle, dt_ms: u32)
    requires
        b.wf(),
        -COURT_HALF_WIDTH <= b.x <= COURT_HALF_WIDTH,
    ensures
        ball_moved(b, player, enemy, dt_ms).wf(),
        ball_moved(b, player, enemy, dt_ms).speed == b.speed,
{
    assert(0 <= b.speed * dt_ms <= MAX_TRAVEL) by (nonlinear_arith)
        requires
            0 <= b.speed <= BALL_SPEED,
            dt_ms <= u32::MAX,
    ;
    lemma_sine_cosine_bounds(b.heading as int);
    lemma_scaled_bounds(b.speed * dt_ms, cosine(b.heading as int));
    lemma_scaled_bounds(b.speed * dt_ms, sine(b.heading as int));
    let flown = ball_integrated(b, dt_ms);
    lemma_negate_angle(b.heading as int);
    let bounced = wall_bounced(flown);
    assert(bounced.wf());
    lemma_mirror_angle(bounced.heading as int);
    let first = after_paddle(b.x as int, bounced, player);
    assert(first.wf());
    lemma_mirror_angle(first.heading as int);
}

/// Every tick from a well-formed game, with room left in the score, ends in
/// a well-formed game.
pub proof fn lemma_tick_keeps_invariant(g: Game, up: bool, down: bool, dt_ms: u32)
    requires
        g.wf(),
        g.score_can_grow(),
    ensures
        ticked(g, up, down, dt_ms).wf(),
{
    let player = Paddle { dir: player_dir(up, down) as i8, ..g.player };
    lemma_paddle_moved_wf(player, dt_ms);
    lemma_paddle_moved_wf(g.enemy, dt_ms);
    let moved = paddles_ticked(g, up, down, dt_ms);
    lemma_paddle_moved_wf(moved.enemy, dt_ms);
    if g.state == RoundState::Started {
        let enemy = Paddle {
            dir: enemy_dir(g.ball.y as int, g.enemy.y as int) as i8,
            ..g.enemy
        };
        lemma_paddle_moved_wf(enemy, dt_ms);
        lemma_ball_moved_wf(moved.ball, moved.player, moved.enemy, dt_ms);
    }
}

/// A goal scores exactly one point, for the player when the ball reaches
/// the left goal line and for the opponent when it reaches the right one,
/// and ends the round; no tick scores for both sides.
pub proof fn lemma_goal_scores_one_point(g: Game, up: bool, down: bool, dt_ms: u32)
    requires
        g.wf(),
        g.score_can_grow(),
        g.state == RoundState::Started,
    ensures
        ({
            let a = ticked(g, up, down, dt_ms);
            &&& a.ball.x - BALL_HALF_SIZE <= -COURT_HALF_WIDTH ==> {
                &&& a.score.player == g.score.player + 1
                &&& a.score.enemy == g.score.enemy
                &&& a.state == RoundState::RoundOver
            }
            &&& -COURT_HALF_WIDTH < a.ball.x - BALL_HALF_SIZE && a.ball.x + BALL_HALF_SIZE
                >= COURT_HALF_WIDTH ==> {
                &&& a.score.enemy == g.score.enemy + 1
                &&& a.score.player == g.score.player
                &&& a.state == RoundState::RoundOver
            }
            &&& -COURT_HALF_WIDTH < a.ball.x - BALL_HALF_SIZE && a.ball.x + BALL_HALF_SIZE
                < COURT_HALF_WIDTH ==> {
                &&& a.score == g.score
                &&& a.state == RoundState::Started
            }
            &&& a.score.player + a.score.enemy <= g.score.player + g.score.enemy + 1
            &&& a.score.player >= g.score.player
            &&& a.score.enemy >= g.score.enemy
        }),
{
}

/// No tick takes a point away, and no tick adds more than one.
pub proof fn lemma_score_grows_by_at_most_one(g: Game, up: bool, down: bool, dt_ms: u32)
    requires
        g.wf(),
        g.score_can_grow(),
    ensures
        ({
            let a = ticked(g, up, down, dt_ms);
            &&& g.score.player <= a.score.player <= g.score.player + 1
            &&& g.score.enemy <= a.score.enemy <= g.score.enemy + 1
            &&& a.score.player + a.score.enemy <= g.score.player + g.score.enemy + 1
        }),
{
}

/// Round transitions: serving ends exactly when the player moves; play ends
/// exactly when a goal is scored; the pause ends exactly when its timer
/// has run for `ROUND_OVER_MS`, counted from zero on entering it; no tick
/// enters or leaves `GameOver`.
pub proof fn lemma_round_transitions(g: Game, up: bool, down: bool, dt_ms: u32)
    requires
        g.wf(),
        g.score_can_grow(),
    ensures
        ({
            let a = ticked(g, up, down, dt_ms);
            &&& g.state == RoundState::Serving ==> {
                &&& (a.state == RoundState::Started) == (player_dir(up, down) != 0)
                &&& (a.state == RoundState::Serving) == (player_dir(up, down) == 0)
            }
            &&& g.state == RoundState::Started ==> {
                &&& (a.state == RoundState::RoundOver) == (scorer(a.ball) is Some)
                &&& (a.state == RoundState::Started) == (scorer(a.ball) is None)
                &&& a.state == RoundState::RoundOver ==> a.timer.elapsed_ms == 0
            }
            &&& g.state == RoundState::RoundOver ==> {
                &&& (a.state == RoundState::Serving) == (g.timer.elapsed_ms + dt_ms
                    >= ROUND_OVER_MS)
                &&& (a.state == RoundState::RoundOver) == (g.timer.elapsed_ms + dt_ms
                    < ROUND_OVER_MS)
                &&& a.state == RoundState::RoundOver ==> a.timer.elapsed_ms == g.timer.elapsed_ms
                    + dt_ms
            }
            &&& (g.state == RoundState::GameOver) == (a.state == RoundState::GameOver)
        }),
{
}

/// On entering `Serving` the ball is still at the center of the court and
/// both paddles are still, centered on the court's horizontal axis.
pub proof fn lemma_serving_starts_centered(g: Game, up: bool, down: bool, dt_ms: u32)
    requires
        g.wf(),
        g.score_can_grow(),
        g.state != RoundState::Serving,
        ticked(g, up, down, dt_ms).state == RoundState::Serving,
    ensures
        ({
            let a = ticked(g, up, down, dt_ms);
            &&& a.ball.x == 0 && a.ball.y == 0
            &&& a.ball.is_still()
            &&& a.ball.vel_x() == 0 && a.ball.vel_y() == 0
            &&& a.player.y == 0 && a.player.dir == 0
            &&& a.enemy.y == 0 && a.enemy.dir == 0
        }),
{
}

/// Paddles never leave the court: after any tick each paddle's center is at
/// least one paddle half-height away from the top and bottom walls.
pub proof fn lemma_paddles_stay_in_court(g: Game, up: bool, down: bool, dt_ms: u32)
    requires
        g.wf(),
        g.score_can_grow(),
    ensures
        ({
            let a = ticked(g, up, down, dt_ms);
            &&& -COURT_HALF_HEIGHT + PADDLE_HALF_HEIGHT <= a.player.y <= COURT_HALF_HEIGHT
                - PADDLE_HALF_HEIGHT
            &&& -COURT_HALF_HEIGHT + PADDLE_HALF_HEIGHT <= a.enemy.y <= COURT_HALF_HEIGHT
                - PADDLE_HALF_HEIGHT
        }),
{
    lemma_tick_keeps_invariant(g, up, down, dt_ms);
}

/// After a tick of play the ball is between the top and bottom walls.
pub proof fn lemma_ball_stays_between_walls(g: Game, up: bool, down: bool, dt_ms: u32)
    requires
        g.wf(),
        g.score_can_grow(),
        g.state == RoundState::Started,
    ensures
        ({
            let a = ticked(g, up, down, dt_ms);
            -(COURT_HALF_HEIGHT - BALL_HALF_SIZE) <= a.ball.y <= COURT_HALF_HEIGHT - BALL_HALF_SIZE
        }),
{
    lemma_tick_keeps_invariant(g, up, down, dt_ms);
}

/// A bounce off the top or bottom wall reverses the vertical velocity and
/// keeps the horizontal velocity and the speed.
pub proof fn lemma_wall_bounce_reflects(b: Ball)
    requires
        is_angle(b.heading as int),
        beyond_wall(b),
    ensures
        wall_bounced(b).vel_y() == -b.vel_y(),
        wall_bounced(b).vel_x() == b.vel_x(),
        wall_bounced(b).speed == b.speed,
{
    lemma_negate_angle(b.heading as int);
    assert(b.speed * (-sine(b.heading as int)) == -(b.speed * sine(b.heading as int)))
        by (nonlinear_arith);
}

/// A paddle sends the ball back by reversing its horizontal velocity, which
/// keeps the vertical velocity, and then turning it by the deflection, which
/// keeps its speed.
pub proof fn lemma_paddle_return_reverses(b: Ball, p: Paddle)
    requires
        is_angle(b.heading as int),
    ensures
        reversed(b).vel_x() == -b.vel_x(),
        reversed(b).vel_y() == b.vel_y(),
        reversed(b).speed == b.speed,
        deflected(b, p).speed == b.speed,
        deflected(b, p).heading == wrap_angle(reversed(b).heading + deflection(b, p)),
        deflected(b, p).x == b.x && deflected(b, p).y == b.y,
{
    lemma_mirror_angle(b.heading as int);
    assert(b.speed * (-cosine(b.heading as int)) == -(b.speed * cosine(b.heading as int)))
        by (nonlinear_arith);
}

/// A ball that hits a paddle at its center goes straight back: no
/// deflection, horizontal velocity reversed, vertical velocity kept.
pub proof fn lemma_center_hit_goes_straight_back(b: Ball, p: Paddle)
    requires
        is_angle(b.heading as int),
        b.y == p.y,
    ensures
        deflection(b, p) == 0,
        deflected(b, p) == reversed(b),
        deflected(b, p).vel_x() == -b.vel_x(),
        deflected(b, p).vel_y() == b.vel_y(),
{
    lemma_paddle_return_reverses(b, p);
}

/// A ball that hits a paddle one half-height above (below) its center is
/// turned by exactly 45 degrees counterclockwise (clockwise).
pub proof fn lemma_edge_hit_turns_45_degrees(b: Ball, p: Paddle)
    requires
        is_angle(b.heading as int),
        b.y == p.y + PADDLE_HALF_HEIGHT || b.y == p.y - PADDLE_HALF_HEIGHT,
    ensures
        FULL_TURN == 8 * MAX_DEFLECTION,
        b.y == p.y + PADDLE_HALF_HEIGHT ==> deflection(b, p) == MAX_DEFLECTION,
        b.y == p.y - PADDLE_HALF_HEIGHT ==> deflection(b, p) == -MAX_DEFLECTION,
        deflected(b, p).heading == wrap_angle(reversed(b).heading + deflection(b, p)),
        deflected(b, p).speed == b.speed,
{
    lemma_paddle_return_reverses(b, p);
}

/// A tick of no time moves nothing: positions and velocities stay as they
/// were, except when the player launches the ball from the serve.
pub proof fn lemma_zero_time_moves_nothing(g: Game, up: bool, down: bool)
    requires
        g.wf(),
        g.score_can_grow(),
        !(g.state == RoundState::Serving && player_dir(up, down) != 0),
    ensures
        ({
            let a = ticked(g, up, down, 0);
            &&& a.ball == g.ball
            &&& a.player.x == g.player.x && a.player.y == g.player.y
            &&& a.enemy.x == g.enemy.x && a.enemy.y == g.enemy.y
        }),
{
    let moved = paddles_ticked(g, up, down, 0);
    if g.state == RoundState::Started {
        lemma_sine_cosine_bounds(g.ball.heading as int);
        assert(g.ball.speed * 0 == 0) by (nonlinear_arith);
        lemma_scaled_bounds(0, cosine(g.ball.heading as int));
        lemma_scaled_bounds(0, sine(g.ball.heading as int));
        assert(ball_integrated(g.ball, 0) == g.ball);
        assert(!hits_paddle(g.ball.x as int, g.ball, moved.player));
        assert(ball_moved(g.ball, moved.player, moved.enemy, 0) == g.ball);
    }
}

/// The game after one tick for each `(up, down, dt_ms)` of `inputs`, in order.
pub open spec fn ticked_all(g: Game, inputs: Seq<(bool, bool, u32)>) -> Game
    decreases inputs.len(),
{
    if inputs.len() == 0 {
        g
    } else {
        let (up, down, dt_ms) = inputs.last();
        ticked(ticked_all(g, inputs.drop_last()), up, down, dt_ms)
    }
}

/// Whatever the sequence of inputs, the game stays well-formed, and so both
/// paddles stay inside the court, as long as the score has room for one
/// point per tick.
pub proof fn lemma_any_inputs_keep_paddles_in_court(g: Game, inputs: Seq<(bool, bool, u32)>)
    requires
        g.wf(),
        g.score.player + inputs.len() < u64::MAX,
        g.score.enemy + inputs.len() < u64::MAX,
    ensures
        ({
            let a = ticked_all(g, inputs);
            &&& a.wf()
            &&& -COURT_HALF_HEIGHT + PADDLE_HALF_HEIGHT <= a.player.y <= COURT_HALF_HEIGHT
                - PADDLE_HALF_HEIGHT
            &&& -COURT_HALF_HEIGHT + PADDLE_HALF_HEIGHT <= a.enemy.y <= COURT_HALF_HEIGHT
                - PADDLE_HALF_HEIGHT
            &&& a.score.player <= g.score.player + inputs.len()
            &&& a.score.enemy <= g.score.enemy + inputs.len()
        }),
    decreases inputs.len(),
{
    if inputs.len() > 0 {
        let rest = inputs.drop_last();
        lemma_any_inputs_keep_paddles_in_court(g, rest);
        let (up, down, dt_ms) = inputs.last();
        let before = ticked_all(g, rest);
        lemma_tick_keeps_invariant(before, up, down, dt_ms);
        lemma_score_grows_by_at_most_one(before, up, down, dt_ms);
    }
}

} // verus!

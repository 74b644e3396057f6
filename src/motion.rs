//! Integration of paddle and ball motion, wall and paddle collisions, goals.
use vstd::prelude::*;
use crate::entities::{BALL_SPEED, BALL_X_LIMIT, PADDLE_SPEED, Ball, Paddle, Side};
use crate::geometry::{
    BALL_HALF_SIZE, BALL_Y_LIMIT, COURT_HALF_WIDTH, FULL_TURN, HALF_TURN, MAX_TRAVEL,
    PADDLE_HALF_HEIGHT, PADDLE_HALF_WIDTH, PADDLE_Y_LIMIT, clamp, clamp_spec, cosine, cosine_of,
    is_angle, lemma_mirror_angle, lemma_negate_angle, mirror_angle, negate_angle, scale, scaled,
    sine, sine_of, wrap, wrap_angle,
};

verus! {

/// The paddle after `dt_ms` milliseconds of motion in its direction,
/// stopped at the court's top and bottom.
pub open spec fn paddle_moved(p: Paddle, dt_ms: u32) -> Paddle {
    Paddle {
        y: clamp_spec(
            p.y + PADDLE_SPEED * p.dir * dt_ms,
            -PADDLE_Y_LIMIT as int,
            PADDLE_Y_LIMIT as int,
        ) as i64,
        ..p
    }
}

/// The ball after `dt_ms` milliseconds of flight in a straight line.
pub open spec fn ball_integrated(b: Ball, dt_ms: u32) -> Ball {
    Ball {
        x: (b.x + scaled(b.speed * dt_ms, cosine(b.heading as int))) as i64,
        y: (b.y + scaled(b.speed * dt_ms, sine(b.heading as int))) as i64,
        ..b
    }
}

/// Whether the ball's center is beyond the top or bottom wall.
pub open spec fn beyond_wall(b: Ball) -> bool {
    b.y > BALL_Y_LIMIT || b.y < -BALL_Y_LIMIT
}

/// A ball beyond the top or bottom wall is put back on it, its vertical
/// velocity reversed.
pub open spec fn wall_bounced(b: Ball) -> Ball {
    if beyond_wall(b) {
        Ball {
            y: clamp_spec(b.y as int, -BALL_Y_LIMIT as int, BALL_Y_LIMIT as int) as i64,
            heading: negate_angle(b.heading as int) as i64,
            ..b
        }
    } else {
        b
    }
}

/// The vertical line that the ball's center crosses when it touches the
/// paddle's right face.
pub open spec fn right_plane(p: Paddle) -> int {
    p.x + PADDLE_HALF_WIDTH + BALL_HALF_SIZE
}

/// The vertical line that the ball's center crosses when it touches the
/// paddle's left face.
pub open spec fn left_plane(p: Paddle) -> int {
    p.x - PADDLE_HALF_WIDTH - BALL_HALF_SIZE
}

/// Whether the ball's center lies within the paddle's vertical span,
/// widened by the ball's half-size.
pub open spec fn level_with(b: Ball, p: Paddle) -> bool {
    p.y - PADDLE_HALF_HEIGHT - BALL_HALF_SIZE <= b.y <= p.y + PADDLE_HALF_HEIGHT + BALL_HALF_SIZE
}

/// Whether the ball, moving from `prev_x` to `b.x`, crossed one of the
/// paddle's faces while level with it.
pub open spec fn hits_paddle(prev_x: int, b: Ball, p: Paddle) -> bool {
    &&& level_with(b, p)
    &&& {
        ||| prev_x > right_plane(p) && b.x < right_plane(p)
        ||| prev_x < left_plane(p) && b.x > left_plane(p)
    }
}

/// The angle by which a returned ball is turned: its vertical offset from
/// the paddle's center, since one paddle half-height of offset is
/// `MAX_DEFLECTION` (45 degrees) of angle.
pub open spec fn deflection(b: Ball, p: Paddle) -> int {
    b.y - p.y
}

/// The ball with its horizontal velocity reversed.
pub open spec fn reversed(b: Ball) -> Ball {
    Ball { heading: mirror_angle(b.heading as int) as i64, ..b }
}

/// The ball sent back by a paddle: reversed horizontally, then turned by
/// the deflection.
pub open spec fn deflected(b: Ball, p: Paddle) -> Ball {
    Ball { heading: wrap_angle(mirror_angle(b.heading as int) + deflection(b, p)) as i64, ..b }
}

pub open spec fn after_paddle(prev_x: int, b: Ball, p: Paddle) -> Ball {
    if hits_paddle(prev_x, b, p) {
        deflected(b, p)
    } else {
        b
    }
}

/// The ball after one tick of play: flight, then walls, then the player's
/// paddle, then the opponent's.
pub open spec fn ball_moved(b: Ball, player: Paddle, enemy: Paddle, dt_ms: u32) -> Ball {
    let flown = wall_bounced(ball_integrated(b, dt_ms));
    after_paddle(b.x as int, after_paddle(b.x as int, flown, player), enemy)
}

/// Who scores with the ball where it is: the player when it reaches the
/// left goal line, the opponent when it reaches the right one.
pub open spec fn scorer(b: Ball) -> Option<Side> {
    if b.x - BALL_HALF_SIZE <= -COURT_HALF_WIDTH {
        Some(Side::Player)
    } else if b.x + BALL_HALF_SIZE >= COURT_HALF_WIDTH {
        Some(Side::Enemy)
    } else {
        None
    }
}

/// Moves a paddle for `dt_ms` milliseconds and keeps it inside the court.
pub fn move_paddle(p: &mut Paddle, dt_ms: u32)
    requires
        old(p).wf(),
    ensures
        *final(p) == paddle_moved(*old(p), dt_ms),
        final(p).wf(),
        -PADDLE_Y_LIMIT <= final(p).y <= PADDLE_Y_LIMIT,
{
    assert(-PADDLE_SPEED * u32::MAX <= PADDLE_SPEED * p.dir * dt_ms <= PADDLE_SPEED * u32::MAX)
        by (nonlinear_arith)
        requires
            -1 <= p.dir <= 1,
            dt_ms <= u32::MAX,
    ;
    let step: i64 = PADDLE_SPEED * (p.dir as i64) * (dt_ms as i64);
    p.y = clamp(p.y + step, -PADDLE_Y_LIMIT, PADDLE_Y_LIMIT);
}

/// Flies the ball in a straight line for `dt_ms` milliseconds.
fn integrate(b: &mut Ball, dt_ms: u32)
    requires
        old(b).wf(),
        -COURT_HALF_WIDTH <= old(b).x <= COURT_HALF_WIDTH,
    ensures
        *final(b) == ball_integrated(*old(b), dt_ms),
        -BALL_X_LIMIT <= final(b).x <= BALL_X_LIMIT,
        -BALL_Y_LIMIT - MAX_TRAVEL <= final(b).y <= BALL_Y_LIMIT + MAX_TRAVEL,
        final(b).speed == old(b).speed,
        final(b).heading == old(b).heading,
{
    assert(b.speed * dt_ms <= MAX_TRAVEL) by (nonlinear_arith)
        requires
            0 <= b.speed <= BALL_SPEED,
            dt_ms <= u32::MAX,
    ;
    let travel: i64 = b.speed * (dt_ms as i64);
    let dx = scale(travel, cosine_of(b.heading));
    let dy = scale(travel, sine_of(b.heading));
    b.x = b.x + dx;
    b.y = b.y + dy;
}

/// Puts a ball that flew past the top or bottom wall back on it, reversing
/// its vertical velocity.
fn bounce_off_walls(b: &mut Ball)
    requires
        is_angle(old(b).heading as int),
    ensures
        *final(b) == wall_bounced(*old(b)),
        -BALL_Y_LIMIT <= final(b).y <= BALL_Y_LIMIT,
        is_angle(final(b).heading as int),
{
    if b.y > BALL_Y_LIMIT || b.y < -BALL_Y_LIMIT {
        proof {
            lemma_negate_angle(b.heading as int);
        }
        b.heading = wrap(FULL_TURN - b.heading);
        b.y = clamp(b.y, -BALL_Y_LIMIT, BALL_Y_LIMIT);
    }
}

/// Sends the ball back if it crossed a face of the paddle since it was at `prev_x`.
pub fn collide_with_paddle(b: &mut Ball, prev_x: i64, p: &Paddle)
    requires
        is_angle(old(b).heading as int),
        -BALL_Y_LIMIT <= old(b).y <= BALL_Y_LIMIT,
        p.wf(),
    ensures
        *final(b) == after_paddle(prev_x as int, *old(b), *p),
        is_angle(final(b).heading as int),
{
    let top: i64 = p.y + PADDLE_HALF_HEIGHT + BALL_HALF_SIZE;
    let bottom: i64 = p.y - PADDLE_HALF_HEIGHT - BALL_HALF_SIZE;
    if b.y > top || b.y < bottom {
        return;
    }
    let right: i64 = p.x + PADDLE_HALF_WIDTH + BALL_HALF_SIZE;
    let left: i64 = p.x - PADDLE_HALF_WIDTH - BALL_HALF_SIZE;
    let right_collision = prev_x > right && b.x < right;
    let left_collision = prev_x < left && b.x > left;
    if right_collision || left_collision {
        proof {
            lemma_mirror_angle(b.heading as int);
        }
        let mirrored = wrap(HALF_TURN - b.heading);
        b.heading = wrap(mirrored + (b.y - p.y));
    }
}

/// Who, if anyone, scores with the ball where it is.
pub fn goal_scorer(b: &Ball) -> (s: Option<Side>)
    requires
        b.wf(),
    ensures
        s == scorer(*b),
{
    if b.x - BALL_HALF_SIZE <= -COURT_HALF_WIDTH {
        Some(Side::Player)
    } else if b.x + BALL_HALF_SIZE >= COURT_HALF_WIDTH {
        Some(Side::Enemy)
    } else {
        None
    }
}

/// One tick of play for the ball: it flies, bounces off the walls and
/// the paddles; returns who scored, if anyone.
pub fn move_ball(b: &mut Ball, player: &Paddle, enemy: &Paddle, dt_ms: u32) -> (s: Option<Side>)
    requires
        old(b).wf(),
        -COURT_HALF_WIDTH <= old(b).x <= COURT_HALF_WIDTH,
        player.wf(),
        enemy.wf(),
    ensures
        *final(b) == ball_moved(*old(b), *player, *enemy, dt_ms),
        final(b).wf(),
        s == scorer(*final(b)),
{
    let prev_x = b.x;
    integrate(b, dt_ms);
    bounce_off_walls(b);
    collide_with_paddle(b, prev_x, player);
    collide_with_paddle(b, prev_x, enemy);
    goal_scorer(b)
}

} // verus!

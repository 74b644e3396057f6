//! What the player's keys and the opponent's tracking ask a paddle to do.
use vstd::prelude::*;

verus! {

/// The player's direction: down wins over up, neither means still.
pub open spec fn player_dir(up: bool, down: bool) -> int {
    if down {
        -1
    } else if up {
        1
    } else {
        0
    }
}

/// The opponent's direction: toward the ball, still when level with it.
pub open spec fn enemy_dir(ball_y: int, paddle_y: int) -> int {
    if ball_y > paddle_y {
        1
    } else if ball_y < paddle_y {
        -1
    } else {
        0
    }
}

/// Maps the state of the "up" and "down" keys to a paddle direction.
pub fn player_direction(up: bool, down: bool) -> (d: i8)
    ensures
        d as int == player_dir(up, down),
{
    if down {
        -1
    } else if up {
        1
    } else {
        0
    }
}

/// The opponent's paddle follows the ball: the sign of the vertical
/// distance from the paddle to the ball.
pub fn enemy_direction(ball_y: i64, paddle_y: i64) -> (d: i8)
    ensures
        d as int == enemy_dir(ball_y as int, paddle_y as int),
{
    if ball_y > paddle_y {
        1
    } else if ball_y < paddle_y {
        -1
    } else {
        0
    }
}

} // verus!

//! The simulation's data: paddles, the ball, the score, the round state and its timer.
use vstd::prelude::*;
use crate::geometry::{
    BALL_Y_LIMIT, COURT_HALF_WIDTH, PADDLE_Y_LIMIT, UNIT, cosine, cosine_of, is_angle, sine, sine_of,
};

verus! {

/// Largest distance of the ball's center from the court's vertical axis that
/// the model allows: far beyond the court, so that one tick past a goal line
/// always stays within it.
pub const BALL_X_LIMIT: i64 = 2_000_000_000_000;

/// The ball's speed while a round is being played, in pixels per second.
pub const BALL_SPEED: i64 = 256;

/// A paddle's speed while it moves, in pixels per second.
pub const PADDLE_SPEED: i64 = 128;

/// How long the pause between a goal and the next serve lasts, in milliseconds.
pub const ROUND_OVER_MS: u32 = 1000;

/// Which side of the court a paddle defends.
#[derive(Clone, Copy, Debug, PartialEq, Eq, Structural)]
pub enum Side {
    Player,
    Enemy,
}

/// A paddle: its center (only `y` ever changes) and the direction it moves in.
#[derive(Clone, Copy, Debug, PartialEq, Eq, Structural)]
pub struct Paddle {
    pub x: i64,
    pub y: i64,
    /// -1 (down), 0 (still) or 1 (up).
    pub dir: i8,
}

impl Paddle {
    pub open spec fn wf(self) -> bool {
        &&& -COURT_HALF_WIDTH <= self.x <= COURT_HALF_WIDTH
        &&& -PADDLE_Y_LIMIT <= self.y <= PADDLE_Y_LIMIT
        &&& -1 <= self.dir <= 1
    }

    /// A still paddle centered on the court's horizontal axis at `x`.
    pub fn new(x: i64) -> (p: Paddle)
        ensures
            p == (Paddle { x, y: 0, dir: 0 }),
    {
        Paddle { x, y: 0, dir: 0 }
    }
}

impl Default for Paddle {
    fn default() -> (p: Paddle)
        ensures
            p == (Paddle { x: 0, y: 0, dir: 0 }),
    {
        Paddle { x: 0, y: 0, dir: 0 }
    }
}

/// The ball: its center, and its velocity as a speed and a heading.
#[derive(Clone, Copy, Debug, PartialEq, Eq, Structural)]
pub struct Ball {
    pub x: i64,
    pub y: i64,
    /// Pixels per second.
    pub speed: i64,
    /// An angle in `[0, FULL_TURN)`, counterclockwise from the rightward direction.
    pub heading: i64,
}

impl Ball {
    pub open spec fn wf(self) -> bool {
        &&& -BALL_X_LIMIT <= self.x <= BALL_X_LIMIT
        &&& -BALL_Y_LIMIT <= self.y <= BALL_Y_LIMIT
        &&& 0 <= self.speed <= BALL_SPEED
        &&& is_angle(self.heading as int)
    }

    /// Horizontal velocity, in millionths of a pixel per second.
    pub open spec fn vel_x(self) -> int {
        self.speed * cosine(self.heading as int)
    }

    /// Vertical velocity, in millionths of a pixel per second.
    pub open spec fn vel_y(self) -> int {
        self.speed * sine(self.heading as int)
    }

    /// Whether the ball stands still.
    pub open spec fn is_still(self) -> bool {
        self.speed == 0
    }

    /// The ball's velocity `(horizontal, vertical)`, in millionths of a
    /// pixel per second.
    pub fn velocity(&self) -> (v: (i64, i64))
        requires
            self.wf(),
        ensures
            v.0 == self.vel_x(),
            v.1 == self.vel_y(),
    {
        let c = cosine_of(self.heading);
        let s = sine_of(self.heading);
        assert(-BALL_SPEED * UNIT <= self.speed * c <= BALL_SPEED * UNIT) by (nonlinear_arith)
            requires
                0 <= self.speed <= BALL_SPEED,
                -UNIT <= c <= UNIT,
        ;
        assert(-BALL_SPEED * UNIT <= self.speed * s <= BALL_SPEED * UNIT) by (nonlinear_arith)
            requires
                0 <= self.speed <= BALL_SPEED,
                -UNIT <= s <= UNIT,
        ;
        (self.speed * c, self.speed * s)
    }
}

impl Default for Ball {
    /// A still ball at the center of the court.
    fn default() -> (b: Ball)
        ensures
            b == (Ball { x: 0, y: 0, speed: 0, heading: 0 }),
    {
        Ball { x: 0, y: 0, speed: 0, heading: 0 }
    }
}

/// Points won by each side. Scores only ever grow.
#[derive(Clone, Copy, Debug, PartialEq, Eq, Structural)]
pub struct Score {
    pub player: u64,
    pub enemy: u64,
}

impl Default for Score {
    fn default() -> (s: Score)
        ensures
            s == (Score { player: 0, enemy: 0 }),
    {
        Score { player: 0, enemy: 0 }
    }
}

/// The phase of a round.
#[derive(Clone, Copy, Debug, PartialEq, Eq, Structural)]
pub enum RoundState {
    /// Waiting for the player to move, everything at the center.
    Serving,
    /// The ball is in play.
    Started,
    /// A goal was scored; pausing before the next serve.
    RoundOver,
    /// No rule enters this state: no score ends the game.
    GameOver,
}

/// The countdown of the pause after a goal.
#[derive(Clone, Copy, Debug, PartialEq, Eq, Structural)]
pub struct RoundTimer {
    /// Milliseconds since the pause began, at most `ROUND_OVER_MS`.
    pub elapsed_ms: u32,
}

impl RoundTimer {
    pub open spec fn wf(self) -> bool {
        self.elapsed_ms <= ROUND_OVER_MS
    }

    pub open spec fn is_finished(self) -> bool {
        self.elapsed_ms >= ROUND_OVER_MS
    }

    /// The timer after `dt_ms` more milliseconds: it stops at its duration.
    pub open spec fn advanced(self, dt_ms: u32) -> RoundTimer {
        RoundTimer {
            elapsed_ms: if self.elapsed_ms + dt_ms >= ROUND_OVER_MS {
                ROUND_OVER_MS
            } else {
                (self.elapsed_ms + dt_ms) as u32
            },
        }
    }

    /// Starts the countdown again.
    pub fn reset(&mut self)
        ensures
            final(self).elapsed_ms == 0,
    {
        self.elapsed_ms = 0;
    }

    /// Lets `dt_ms` milliseconds pass; returns whether the pause is over.
    pub fn advance(&mut self, dt_ms: u32) -> (finished: bool)
        requires
            old(self).wf(),
        ensures
            *final(self) == old(self).advanced(dt_ms),
            final(self).wf(),
            finished == final(self).is_finished(),
    {
        let (elapsed_ms, finished) = tick_once_timer(ROUND_OVER_MS, self.elapsed_ms, dt_ms);
        self.elapsed_ms = elapsed_ms;
        finished
    }
}

/// Relies on bevy's `Timer::tick` for a timer in `TimerMode::Once` that is
/// not yet finished: the elapsed time grows by `delta_ms` (`Stopwatch::tick`);
/// once it reaches the duration the timer is finished and the elapsed time
/// is set to the duration.
#[verifier::external_body]
fn tick_once_timer(duration_ms: u32, elapsed_ms: u32, delta_ms: u32) -> (r: (u32, bool))
    requires
        elapsed_ms <= duration_ms,
    ensures
        r.0 == (if elapsed_ms + delta_ms >= duration_ms {
            duration_ms as int
        } else {
            elapsed_ms + delta_ms
        }),
        r.1 == (elapsed_ms + delta_ms >= duration_ms),
{
    let duration = std::time::Duration::from_millis(duration_ms as u64);
    let mut timer = bevy::time::Timer::new(duration, bevy::time::TimerMode::Once);
    timer.set_elapsed(std::time::Duration::from_millis(elapsed_ms as u64));
    timer.tick(std::time::Duration::from_millis(delta_ms as u64));
    (timer.elapsed().as_millis() as u32, timer.finished())
}

impl Default for RoundTimer {
    fn default() -> (t: RoundTimer)
        ensures
            t.elapsed_ms == 0,
    {
        RoundTimer { elapsed_ms: 0 }
    }
}

} // verus!

//! The round state machine and the ordered per-tick update of the whole game.
use vstd::prelude::*;
use crate::control::{enemy_dir, enemy_direction, player_dir, player_direction};
use crate::entities::{BALL_SPEED, Ball, Paddle, RoundState, RoundTimer, Score, Side};
use crate::geometry::{BALL_HALF_SIZE, COURT_HALF_WIDTH, HALF_TURN, PADDLE_HALF_WIDTH};
use crate::motion::{ball_moved, move_ball, move_paddle, paddle_moved, scorer};

verus! {

/// Horizontal position of the player's paddle, against the left wall.
pub const PLAYER_X: i64 = -COURT_HALF_WIDTH + PADDLE_HALF_WIDTH;

/// Horizontal position of the opponent's paddle, against the right wall.
pub const ENEMY_X: i64 = COURT_HALF_WIDTH - PADDLE_HALF_WIDTH;

/// While the ball is in play its center stays strictly inside this distance
/// from the court's vertical axis: reaching it scores a goal.
pub const GOAL_X: i64 = COURT_HALF_WIDTH - BALL_HALF_SIZE;

/// Everything the simulation owns.
#[derive(Clone, Copy, Debug, PartialEq, Eq, Structural)]
pub struct Game {
    pub state: RoundState,
    pub player: Paddle,
    pub enemy: Paddle,
    pub ball: Ball,
    pub score: Score,
    pub timer: RoundTimer,
}

/// The ball in play: leftward, toward the player, at full speed.
pub open spec fn served_ball(b: Ball) -> Ball {
    Ball { speed: BALL_SPEED, heading: HALF_TURN, ..b }
}

/// The game as it is on entering `Serving`: ball and paddles still and at
/// the center of their ranges.
pub open spec fn entered_serving(g: Game) -> Game {
    Game {
        state: RoundState::Serving,
        player: Paddle { y: 0, dir: 0, ..g.player },
        enemy: Paddle { y: 0, dir: 0, ..g.enemy },
        ball: Ball { x: 0, y: 0, speed: 0, heading: 0 },
        ..g
    }
}

/// The game as it is on entering `Started`: the ball launched.
pub open spec fn entered_started(g: Game) -> Game {
    Game { state: RoundState::Started, ball: served_ball(g.ball), ..g }
}

/// The game as it is on entering `RoundOver`: the opponent stopped and the
/// pause's countdown begun.
pub open spec fn entered_round_over(g: Game) -> Game {
    Game {
        state: RoundState::RoundOver,
        enemy: Paddle { dir: 0, ..g.enemy },
        timer: RoundTimer { elapsed_ms: 0 },
        ..g
    }
}

/// The score after a goal by `s`.
pub open spec fn scored(sc: Score, s: Side) -> Score {
    match s {
        Side::Player => Score { player: (sc.player + 1) as u64, ..sc },
        Side::Enemy => Score { enemy: (sc.enemy + 1) as u64, ..sc },
    }
}

/// The game after the controllers set the paddles' directions and the
/// paddles moved; the opponent tracks the ball only while it is in play.
pub open spec fn paddles_ticked(g: Game, up: bool, down: bool, dt_ms: u32) -> Game {
    let player = Paddle { dir: player_dir(up, down) as i8, ..g.player };
    let enemy = if g.state == RoundState::Started {
        Paddle { dir: enemy_dir(g.ball.y as int, g.enemy.y as int) as i8, ..g.enemy }
    } else {
        g.enemy
    };
    Game { player: paddle_moved(player, dt_ms), enemy: paddle_moved(enemy, dt_ms), ..g }
}

/// The game after one tick of `dt_ms` milliseconds with the player's keys
/// `up` and `down`: controllers, paddle motion, then what the round state
/// does, with the entry action of any state it moves to.
pub open spec fn ticked(g: Game, up: bool, down: bool, dt_ms: u32) -> Game {
    let moved = paddles_ticked(g, up, down, dt_ms);
    match g.state {
        RoundState::Serving => {
            if player_dir(up, down) != 0 {
                entered_started(moved)
            } else {
                moved
            }
        },
        RoundState::Started => {
            let ball = ball_moved(moved.ball, moved.player, moved.enemy, dt_ms);
            let played = Game { ball, ..moved };
            match scorer(ball) {
                Some(s) => entered_round_over(Game { score: scored(moved.score, s), ..played }),
                None => played,
            }
        },
        RoundState::RoundOver => {
            let timer = moved.timer.advanced(dt_ms);
            if timer.is_finished() {
                entered_serving(Game { timer, ..moved })
            } else {
                Game { timer, ..moved }
            }
        },
        RoundState::GameOver => moved,
    }
}

impl Game {
    /// The game's invariant.
    pub open spec fn wf(self) -> bool {
        &&& self.player.wf()
        &&& self.enemy.wf()
        &&& self.player.x == PLAYER_X
        &&& self.enemy.x == ENEMY_X
        &&& self.ball.wf()
        &&& self.timer.wf()
        &&& self.state == RoundState::Serving ==> self.ball == (Ball {
            x: 0,
            y: 0,
            speed: 0,
            heading: 0,
        })
        &&& self.state == RoundState::Started ==> -GOAL_X < self.ball.x < GOAL_X
        &&& self.state == RoundState::RoundOver ==> !self.timer.is_finished()
    }

    /// Whether one more goal by either side cannot overflow the score.
    pub open spec fn score_can_grow(self) -> bool {
        self.score.player < u64::MAX && self.score.enemy < u64::MAX
    }

    /// A new game, serving, with no points scored.
    pub fn new() -> (g: Game)
        ensures
            g.wf(),
            g.state == RoundState::Serving,
            g.score == (Score { player: 0, enemy: 0 }),
            g.ball == (Ball { x: 0, y: 0, speed: 0, heading: 0 }),
            g.player == (Paddle { x: PLAYER_X, y: 0, dir: 0 }),
            g.enemy == (Paddle { x: ENEMY_X, y: 0, dir: 0 }),
            g.timer.elapsed_ms == 0,
    {
        Game {
            state: RoundState::Serving,
            player: Paddle::new(PLAYER_X),
            enemy: Paddle::new(ENEMY_X),
            ball: Ball::default(),
            score: Score::default(),
            timer: RoundTimer::default(),
        }
    }

    /// Entry action of `Serving`: ball and paddles still and centered.
    pub fn on_start_serving(&mut self)
        ensures
            *final(self) == entered_serving(*old(self)),
    {
        self.ball = Ball::default();
        self.player.dir = 0;
        self.player.y = 0;
        self.enemy.dir = 0;
        self.enemy.y = 0;
        self.state = RoundState::Serving;
    }

    /// Entry action of `Started`: the ball is launched toward the player.
    pub fn on_round_started(&mut self)
        ensures
            *final(self) == entered_started(*old(self)),
    {
        self.ball.speed = BALL_SPEED;
        self.ball.heading = HALF_TURN;
        self.state = RoundState::Started;
    }

    /// Entry action of `RoundOver`: the opponent stops and the pause begins.
    pub fn on_round_over(&mut self)
        ensures
            *final(self) == entered_round_over(*old(self)),
    {
        self.enemy.dir = 0;
        self.timer.reset();
        self.state = RoundState::RoundOver;
    }

    /// Sets the paddles' directions from the player's keys and, while the
    /// ball is in play, from the opponent's tracking; then moves both paddles.
    fn update_paddles(&mut self, up: bool, down: bool, dt_ms: u32)
        requires
            old(self).wf(),
        ensures
            *final(self) == paddles_ticked(*old(self), up, down, dt_ms),
            final(self).wf(),
    {
        self.player.dir = player_direction(up, down);
        if self.state == RoundState::Started {
            self.enemy.dir = enemy_direction(self.ball.y, self.enemy.y);
        }
        move_paddle(&mut self.player, dt_ms);
        move_paddle(&mut self.enemy, dt_ms);
    }

    /// While serving: the player's first move launches the ball.
    fn pre_serve(&mut self, up: bool, down: bool)
        requires
            old(self).state == RoundState::Serving,
        ensures
            *final(self) == (if player_dir(up, down) != 0 {
                entered_started(*old(self))
            } else {
                *old(self)
            }),
    {
        if up || down {
            self.on_round_started();
        }
    }

    /// While in play: the ball moves; a goal scores and ends the round.
    fn play(&mut self, dt_ms: u32)
        requires
            old(self).wf(),
            old(self).state == RoundState::Started,
            old(self).score_can_grow(),
        ensures
            *final(self) == ({
                let ball = ball_moved(old(self).ball, old(self).player, old(self).enemy, dt_ms);
                let played = Game { ball, ..*old(self) };
                match scorer(ball) {
                    Some(s) => entered_round_over(
                        Game { score: scored(old(self).score, s), ..played },
                    ),
                    None => played,
                }
            }),
            final(self).wf(),
    {
        let scorer = move_ball(&mut self.ball, &self.player, &self.enemy, dt_ms);
        match scorer {
            Some(Side::Player) => {
                self.score.player = self.score.player + 1;
                self.on_round_over();
            },
            Some(Side::Enemy) => {
                self.score.enemy = self.score.enemy + 1;
                self.on_round_over();
            },
            None => {},
        }
    }

    /// While the round is over: the pause counts down, then serving begins.
    fn round_over(&mut self, dt_ms: u32)
        requires
            old(self).wf(),
        ensures
            *final(self) == ({
                let timer = old(self).timer.advanced(dt_ms);
                if timer.is_finished() {
                    entered_serving(Game { timer, ..*old(self) })
                } else {
                    Game { timer, ..*old(self) }
                }
            }),
            final(self).wf(),
    {
        if self.timer.advance(dt_ms) {
            self.on_start_serving();
        }
    }

    /// One tick of the simulation: `dt_ms` milliseconds pass while the
    /// player holds `up` and/or `down`.
    pub fn tick(&mut self, up: bool, down: bool, dt_ms: u32)
        requires
            old(self).wf(),
            old(self).score_can_grow(),
        ensures
            *final(self) == ticked(*old(self), up, down, dt_ms),
            final(self).wf(),
    {
        self.update_paddles(up, down, dt_ms);
        match self.state {
            RoundState::Serving => self.pre_serve(up, down),
            RoundState::Started => self.play(dt_ms),
            RoundState::RoundOver => self.round_over(dt_ms),
            RoundState::GameOver => {},
        }
    }
}

} // verus!

//! The game loop's state: the paused/playing flag, both paddles, the ball
//! and the two scores, with the one-frame transition function the driver
//! calls every frame.

use crate::ball::Ball;
use crate::paddle::Paddle;
use vstd::prelude::*;

verus! {

/// Points a player gains when the ball leaves through the opponent's side.
pub const SCORE_INCREMENT: u64 = 100;

/// Whether a rally is running.  `Paused` is the initial state and is
/// re-entered after every point.
#[derive(Clone, Copy, Debug, PartialEq, Eq, Structural)]
pub enum State {
    Paused,
    Playing,
}

/// One frame's worth of player input, as the driver's input source reports
/// it: `space_pressed` is an edge (true only on the frame the key went
/// down), the four steering flags are levels (true while held).
#[derive(Clone, Copy, Debug, PartialEq, Eq, Structural)]
pub struct Input {
    pub space_pressed: bool,
    pub p1_up: bool,
    pub p1_down: bool,
    pub p2_up: bool,
    pub p2_down: bool,
}

/// The whole game state, owned by the driver and advanced one frame at a
/// time through `frame`.
#[derive(Clone, Copy, Debug, PartialEq)]
pub struct Game {
    pub state: State,
    pub player_1: Paddle,
    pub player_2: Paddle,
    pub ball: Ball,
    pub p1_score: u64,
    pub p2_score: u64,
}

/// What a frame does while paused: everything but the state flag is
/// untouched, and a space edge — and nothing else — starts the rally.
pub open spec fn paused_post(pre: Game, input: Input, post: Game) -> bool {
    &&& post.player_1 == pre.player_1
    &&& post.player_2 == pre.player_2
    &&& post.ball == pre.ball
    &&& post.p1_score == pre.p1_score
    &&& post.p2_score == pre.p2_score
    &&& post.state == (if input.space_pressed {
        State::Playing
    } else {
        State::Paused
    })
}

/// What a frame does while playing: both paddles take their control step,
/// the ball moves and bounces, and if it has left the field the scorer's
/// counter grows by `SCORE_INCREMENT`, every entity is rebuilt at its
/// start position, and the game pauses; otherwise play goes on with
/// exactly the stepped entities and untouched scores.
pub open spec fn playing_post(pre: Game, input: Input, post: Game) -> bool {
    let p1 = pre.player_1.stepped(input.p1_up, input.p1_down);
    let p2 = pre.player_2.stepped(input.p2_up, input.p2_down);
    let moved = pre.ball.moved();
    &&& moved.exits_left() ==> {
        &&& post.state == State::Paused
        &&& post.p1_score == pre.p1_score
        &&& post.p2_score == pre.p2_score + SCORE_INCREMENT
        &&& post.player_1.is_start(1)
        &&& post.player_2.is_start(2)
        &&& post.ball.is_spawn()
    }
    &&& (!moved.exits_left() && moved.exits_right()) ==> {
        &&& post.state == State::Paused
        &&& post.p1_score == pre.p1_score + SCORE_INCREMENT
        &&& post.p2_score == pre.p2_score
        &&& post.player_1.is_start(1)
        &&& post.player_2.is_start(2)
        &&& post.ball.is_spawn()
    }
    &&& (!moved.exits_left() && !moved.exits_right()) ==> {
        &&& post.state == State::Playing
        &&& post.player_1 == p1
        &&& post.player_2 == p2
        &&& post.ball == moved.bounced(p1, p2)
        &&& post.p1_score == pre.p1_score
        &&& post.p2_score == pre.p2_score
    }
}

/// What one frame does, whichever state it starts in.
pub open spec fn frame_post(pre: Game, input: Input, post: Game) -> bool {
    &&& pre.state == State::Paused ==> paused_post(pre, input, post)
    &&& pre.state == State::Playing ==> playing_post(pre, input, post)
}

impl Game {
    /// A valid game: both paddles well formed with their proper ids, and a
    /// well-formed ball.
    pub open spec fn wf(self) -> bool {
        &&& self.player_1.wf()
        &&& self.player_1.id == 1
        &&& self.player_2.wf()
        &&& self.player_2.id == 2
        &&& self.ball.wf()
    }

    /// A fresh game: paused, scores at zero, every entity at its start
    /// position.
    pub fn new() -> (g: Game)
        ensures
            g.wf(),
            g.state == State::Paused,
            g.p1_score == 0,
            g.p2_score == 0,
            g.player_1.is_start(1),
            g.player_2.is_start(2),
            g.ball.is_spawn(),
    {
        Game {
            state: State::Paused,
            player_1: Paddle::new(1),
            player_2: Paddle::new(2),
            ball: Ball::new(),
            p1_score: 0,
            p2_score: 0,
        }
    }

    /// Advances the game by one frame, exactly as `frame_post` describes,
    /// and keeps the game well formed.  The score headroom preconditions
    /// are the machine limit on the counters.
    pub fn frame(&mut self, input: Input)
        requires
            old(self).wf(),
            old(self).p1_score <= u64::MAX - SCORE_INCREMENT,
            old(self).p2_score <= u64::MAX - SCORE_INCREMENT,
        ensures
            final(self).wf(),
            frame_post(*old(self), input, *final(self)),
    {
        match self.state {
            State::Paused => {
                if input.space_pressed {
                    self.state = State::Playing;
                }
            },
            State::Playing => {
                self.player_1.control(input.p1_up, input.p1_down);
                self.player_2.control(input.p2_up, input.p2_down);
                self.ball.move_dir();
                let (out_left, out_right) = self.ball.collide(&self.player_1, &self.player_2);
                if out_left {
                    self.p2_score = self.p2_score + SCORE_INCREMENT;
                    self.player_1 = Paddle::new(1);
                    self.player_2 = Paddle::new(2);
                    self.ball = Ball::new();
                    self.state = State::Paused;
                } else if out_right {
                    self.p1_score = self.p1_score + SCORE_INCREMENT;
                    self.player_1 = Paddle::new(1);
                    self.player_2 = Paddle::new(2);
                    self.ball = Ball::new();
                    self.state = State::Paused;
                }
            },
        }
    }
}

/// Law: starting a rally is a one-shot edge.  A space edge while paused —
/// and nothing else — moves the game to Playing; after that, input has no
/// further say in the state: however long the key is still held, the game
/// stays in Playing until the ball exits the field.
pub proof fn lemma_space_edge_starts_once(pre: Game, input: Input, post: Game)
    requires
        frame_post(pre, input, post),
    ensures
        pre.state == State::Paused && input.space_pressed ==> post.state == State::Playing,
        pre.state == State::Paused && !input.space_pressed ==> post.state == State::Paused,
        pre.state == State::Playing && !pre.ball.moved().exits_left()
            && !pre.ball.moved().exits_right() ==> post.state == State::Playing,
{
}

/// Law: scores never shrink, and they only ever grow by `SCORE_INCREMENT`
/// at a time, on a frame whose moved ball exits the field.
pub proof fn lemma_score_monotone(pre: Game, input: Input, post: Game)
    requires
        frame_post(pre, input, post),
    ensures
        post.p1_score == pre.p1_score || post.p1_score == pre.p1_score + SCORE_INCREMENT,
        post.p2_score == pre.p2_score || post.p2_score == pre.p2_score + SCORE_INCREMENT,
        post.p1_score >= pre.p1_score,
        post.p2_score >= pre.p2_score,
{
}

} // verus!

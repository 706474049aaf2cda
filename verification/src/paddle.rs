//! The two player paddles: fixed horizontal home positions, vertical motion
//! clamped to the screen, and the per-player key bindings.

use crate::Rect;
use crate::SCREEN_HEIGHT;
use crate::SCREEN_WIDTH;
use vstd::prelude::*;

verus! {

/// Width of a paddle in pixels.
pub const PADDLE_WIDTH: i32 = 16;

/// Height of a paddle in pixels.
pub const PADDLE_HEIGHT: i32 = 64;

/// Pixels a paddle moves in one frame while a key is held.
pub const PADDLE_STEP: i32 = 10;

/// A logical key the game reacts to.  The driver maps these onto whatever
/// key codes its input source reports.
#[derive(Clone, Copy, Debug, PartialEq, Eq, Structural)]
pub enum Key {
    W,
    S,
    Up,
    Down,
    Space,
}

/// A paddle, owned by the game loop.  `id` is 1 for the left player and 2
/// for the right player; `x` is fixed by the id, only `y` ever moves.
#[derive(Clone, Copy, Debug, PartialEq, Eq, Structural)]
pub struct Paddle {
    pub id: u32,
    pub x: i32,
    pub y: i32,
}

/// The fixed horizontal position of a paddle: the left margin for player 1,
/// the right margin for player 2.
pub open spec fn home_x(id: u32) -> int {
    if id == 1 {
        0
    } else {
        SCREEN_WIDTH - PADDLE_WIDTH
    }
}

/// The vertical centre position both paddles start a round at.
pub open spec fn start_y() -> int {
    SCREEN_HEIGHT / 2 - PADDLE_HEIGHT / 2
}

/// One control step on the vertical position: up moves by `PADDLE_STEP`
/// when the paddle would stay at or above the top edge, then down moves by
/// the same step when the paddle would stay at or above the bottom edge.
pub open spec fn step_y(y: int, up: bool, down: bool) -> int {
    let y_up = if up && y - PADDLE_STEP >= 0 {
        y - PADDLE_STEP
    } else {
        y
    };
    if down && y_up + PADDLE_STEP <= SCREEN_HEIGHT - PADDLE_HEIGHT {
        y_up + PADDLE_STEP
    } else {
        y_up
    }
}

impl Paddle {
    /// A valid paddle: a real player id, the home column for that id, and a
    /// vertical position that keeps the whole paddle on screen.
    pub open spec fn wf(self) -> bool {
        &&& (self.id == 1 || self.id == 2)
        &&& self.x == home_x(self.id)
        &&& 0 <= self.y <= SCREEN_HEIGHT - PADDLE_HEIGHT
    }

    /// The position a paddle with this id holds at the start of a round.
    pub open spec fn is_start(self, id: u32) -> bool {
        &&& self.id == id
        &&& self.x == home_x(id)
        &&& self.y == start_y()
    }

    /// The paddle after one control step: only `y` changes, to `step_y` of
    /// the old value.
    pub open spec fn stepped(self, up: bool, down: bool) -> Paddle {
        Paddle { y: step_y(self.y as int, up, down) as i32, ..self }
    }

    /// Builds the paddle for player `id` at its home column, vertically
    /// centred.  Ids other than 1 and 2 are a programming error and are
    /// ruled out by the precondition.
    pub fn new(id: u32) -> (p: Paddle)
        requires
            id == 1 || id == 2,
        ensures
            p.wf(),
            p.is_start(id),
    {
        let x: i32 = if id == 1 {
            0
        } else {
            SCREEN_WIDTH - PADDLE_WIDTH
        };
        let y: i32 = SCREEN_HEIGHT / 2 - PADDLE_HEIGHT / 2;
        Paddle { id, x, y }
    }

    /// Applies one frame of player input.  The new vertical position is
    /// exactly `step_y` of the old one, and it never leaves the screen:
    /// `0 <= y <= SCREEN_HEIGHT - PADDLE_HEIGHT` afterwards.
    pub fn control(&mut self, up: bool, down: bool)
        requires
            old(self).wf(),
        ensures
            final(self).wf(),
            final(self).id == old(self).id,
            final(self).x == old(self).x,
            final(self).y == step_y(old(self).y as int, up, down),
            *final(self) == old(self).stepped(up, down),
            0 <= final(self).y <= SCREEN_HEIGHT - PADDLE_HEIGHT,
    {
        if up && self.y >= PADDLE_STEP {
            self.y = self.y - PADDLE_STEP;
        }
        if down && self.y + PADDLE_STEP <= SCREEN_HEIGHT - PADDLE_HEIGHT {
            self.y = self.y + PADDLE_STEP;
        }
    }

    /// The rectangle this paddle occupies on screen.
    pub open spec fn draw_spec(self) -> Rect {
        Rect { x: self.x, y: self.y, w: PADDLE_WIDTH, h: PADDLE_HEIGHT }
    }

    /// Emits the paddle's rectangle for the drawing surface.  The paddle is
    /// only borrowed, and the result is a pure function of it, so repeated
    /// draws change nothing and always yield the same command.
    pub fn draw(&self) -> (r: Rect)
        ensures
            r == self.draw_spec(),
    {
        Rect { x: self.x, y: self.y, w: PADDLE_WIDTH, h: PADDLE_HEIGHT }
    }
}

/// The (up, down) keys that steer the paddle of player `id`: W/S for
/// player 1, the arrow keys for player 2.
pub fn key_bindings(id: u32) -> (keys: (Key, Key))
    requires
        id == 1 || id == 2,
    ensures
        id == 1 ==> keys == (Key::W, Key::S),
        id == 2 ==> keys == (Key::Up, Key::Down),
{
    if id == 1 {
        (Key::W, Key::S)
    } else {
        (Key::Up, Key::Down)
    }
}

} // verus!

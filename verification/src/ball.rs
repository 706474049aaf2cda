//! The ball: a square that moves a fixed number of pixels per frame,
//! bounces off the top and bottom walls and off the paddles, and reports
//! through which side it left the field.

use crate::paddle::Paddle;
use crate::paddle::PADDLE_HEIGHT;
use crate::paddle::PADDLE_WIDTH;
use crate::Rect;
use crate::SCREEN_HEIGHT;
use crate::SCREEN_WIDTH;
use vstd::prelude::*;

verus! {

/// Side length of the (square) ball in pixels.
pub const BALL_SIZE: i32 = 16;

/// Pixels the ball moves per frame along each axis.
pub const BALL_SPEED: i32 = 6;

/// The ball.  `dir` holds the horizontal and vertical direction signs; the
/// game keeps both in {-1, +1}.
#[derive(Clone, Copy, Debug, PartialEq)]
pub struct Ball {
    pub x: i32,
    pub y: i32,
    pub dir: (i32, i32),
}

/// Flips a vertical direction sign; anything outside {-1, +1} collapses
/// to 0 (unreachable while the ball is well formed).
pub open spec fn flip(d: int) -> int {
    if d == -1 {
        1
    } else if d == 1 {
        -1
    } else {
        0
    }
}

impl Ball {
    /// A valid ball: direction signs in {-1, +1}, a horizontal position at
    /// most one step beyond the exit thresholds, and a vertical position at
    /// most one step beyond the walls — moving back onto the field whenever
    /// it is past one of them.
    pub open spec fn wf(self) -> bool {
        &&& (self.dir.0 == -1 || self.dir.0 == 1)
        &&& (self.dir.1 == -1 || self.dir.1 == 1)
        &&& -BALL_SIZE - BALL_SPEED < self.x < SCREEN_WIDTH + BALL_SPEED
        &&& -BALL_SPEED <= self.y <= SCREEN_HEIGHT - BALL_SIZE + BALL_SPEED
        &&& self.y < 0 ==> self.dir.1 == 1
        &&& self.y > SCREEN_HEIGHT - BALL_SIZE ==> self.dir.1 == -1
    }

    /// A freshly served ball: centred on the screen, with both direction
    /// signs in {-1, +1} (whichever way the serve went).
    pub open spec fn is_spawn(self) -> bool {
        &&& self.x == SCREEN_WIDTH / 2 - BALL_SIZE / 2
        &&& self.y == SCREEN_HEIGHT / 2 - BALL_SIZE / 2
        &&& (self.dir.0 == -1 || self.dir.0 == 1)
        &&& (self.dir.1 == -1 || self.dir.1 == 1)
    }

    /// Serves a new ball from the centre of the screen.  Each direction
    /// component is chosen pseudo-randomly and is always -1 or +1, never 0.
    pub fn new() -> (b: Ball)
        ensures
            b.wf(),
            b.is_spawn(),
    {
        let rx: i32 = gen_range_i32(-1, 2);
        let dir_x: i32 = if rx <= 0 {
            1
        } else {
            -1
        };
        let ry: i32 = gen_range_i32(-1, 2);
        let dir_y: i32 = if ry <= 0 {
            1
        } else {
            -1
        };
        Ball {
            x: SCREEN_WIDTH / 2 - BALL_SIZE / 2,
            y: SCREEN_HEIGHT / 2 - BALL_SIZE / 2,
            dir: (dir_x, dir_y),
        }
    }

    /// The ball overlaps paddle 1's column and vertical span.
    pub open spec fn hits_left(self, p1: Paddle) -> bool {
        &&& self.x <= p1.x + PADDLE_WIDTH
        &&& p1.y <= self.y <= p1.y + PADDLE_HEIGHT
    }

    /// The ball overlaps paddle 2's column and vertical span.
    pub open spec fn hits_right(self, p2: Paddle) -> bool {
        &&& self.x >= p2.x
        &&& p2.y <= self.y <= p2.y + PADDLE_HEIGHT
    }

    /// The ball touches or is past the top or bottom wall.
    pub open spec fn at_wall(self) -> bool {
        self.y <= 0 || self.y >= SCREEN_HEIGHT - BALL_SIZE
    }

    /// The ball has left the field through the left side.
    pub open spec fn exits_left(self) -> bool {
        self.x <= -BALL_SIZE
    }

    /// The ball has left the field through the right side.
    pub open spec fn exits_right(self) -> bool {
        self.x >= SCREEN_WIDTH
    }

    /// The ball after one movement step: each coordinate advances by the
    /// direction sign times the speed.
    pub open spec fn moved(self) -> Ball {
        Ball {
            x: (self.x + self.dir.0 * BALL_SPEED) as i32,
            y: (self.y + self.dir.1 * BALL_SPEED) as i32,
            ..self
        }
    }

    /// The ball after one collision resolution: a paddle hit forces the
    /// horizontal sign (rightward off paddle 1, leftward off paddle 2), and
    /// wall contact flips the vertical sign.  The position is untouched.
    pub open spec fn bounced(self, p1: Paddle, p2: Paddle) -> Ball {
        let dx = if self.hits_left(p1) {
            1
        } else if self.hits_right(p2) {
            -1
        } else {
            self.dir.0 as int
        };
        let dy = if self.at_wall() {
            flip(self.dir.1 as int)
        } else {
            self.dir.1 as int
        };
        Ball { dir: (dx as i32, dy as i32), ..self }
    }

    /// The exit flags collide reports: (exited left, exited right).  At
    /// most one of the two is ever set.
    pub open spec fn exit_flags(self) -> (bool, bool) {
        if self.exits_left() {
            (true, false)
        } else if self.exits_right() {
            (false, true)
        } else {
            (false, false)
        }
    }

    /// Advances the ball one step along its direction vector.
    pub fn move_dir(&mut self)
        requires
            -1 <= old(self).dir.0 <= 1,
            -1 <= old(self).dir.1 <= 1,
            i32::MIN + BALL_SPEED <= old(self).x <= i32::MAX - BALL_SPEED,
            i32::MIN + BALL_SPEED <= old(self).y <= i32::MAX - BALL_SPEED,
        ensures
            final(self).x == old(self).x + old(self).dir.0 * BALL_SPEED,
            final(self).y == old(self).y + old(self).dir.1 * BALL_SPEED,
            final(self).dir == old(self).dir,
    {
        self.x = self.x + self.dir.0 * BALL_SPEED;
        self.y = self.y + self.dir.1 * BALL_SPEED;
    }

    /// Resolves collisions against the two paddles and the walls, then
    /// reports whether the ball has left the field: (true, false) when it
    /// is out on the left, (false, true) when it is out on the right,
    /// (false, false) otherwise.  Only the direction vector is changed.
    pub fn collide(&mut self, player_1: &Paddle, player_2: &Paddle) -> (r: (bool, bool))
        requires
            player_1.wf(),
            player_2.wf(),
        ensures
            *final(self) == old(self).bounced(*player_1, *player_2),
            final(self).x == old(self).x,
            final(self).y == old(self).y,
            r == old(self).exit_flags(),
            old(self).exits_left() ==> r == (true, false),
            !old(self).exits_left() && old(self).exits_right() ==> r == (false, true),
            !old(self).exits_left() && !old(self).exits_right() ==> r == (false, false),
            !(r.0 && r.1),
            old(self).at_wall() ==> final(self).dir.1 == flip(old(self).dir.1 as int),
            old(self).y <= 0 && old(self).dir.1 == -1 ==> final(self).dir.1 == 1,
            old(self).y >= SCREEN_HEIGHT - BALL_SIZE && old(self).dir.1 == 1 ==> final(self).dir.1
                == -1,
    {
        if self.x <= player_1.x + PADDLE_WIDTH && (self.y >= player_1.y && self.y <= player_1.y
            + PADDLE_HEIGHT) {
            self.dir.0 = 1;
        } else if self.x >= player_2.x && (self.y >= player_2.y && self.y <= player_2.y
            + PADDLE_HEIGHT) {
            self.dir.0 = -1;
        }
        if self.y <= 0 || self.y >= SCREEN_HEIGHT - BALL_SIZE {
            self.dir.1 = match self.dir.1 {
                -1 => 1,
                1 => -1,
                _ => 0,
            };
        }
        if self.x <= -BALL_SIZE {
            (true, false)
        } else if self.x >= SCREEN_WIDTH {
            (false, true)
        } else {
            (false, false)
        }
    }

    /// The square the ball occupies on screen.
    pub open spec fn draw_spec(self) -> Rect {
        Rect { x: self.x, y: self.y, w: BALL_SIZE, h: BALL_SIZE }
    }

    /// Emits the ball's square for the drawing surface.  The ball is only
    /// borrowed, and the result is a pure function of it, so repeated draws
    /// change nothing and always yield the same command.
    pub fn draw(&self) -> (r: Rect)
        ensures
            r == self.draw_spec(),
    {
        Rect { x: self.x, y: self.y, w: BALL_SIZE, h: BALL_SIZE }
    }
}

/// Relies on macroquad::rand::gen_range (quad_rand): it scales a
/// pseudo-random 32-bit value r into low + (high - low) * r / 2^32 — exact
/// in double precision at these magnitudes — and truncates toward zero, so
/// for bounds within [-1024, 1024] with high positive the result lies
/// between low and high - 1.
#[verifier::external_body]
fn gen_range_i32(low: i32, high: i32) -> (r: i32)
    requires
        -1024 <= low < high <= 1024,
        0 < high,
    ensures
        low <= r < high,
{
    macroquad::rand::gen_range(low, high)
}

} // verus!

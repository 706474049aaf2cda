//! A minimal two-player pong game, verified.
//!
//! The library holds the whole per-frame game logic: paddle motion with its
//! screen-bound clamp, ball motion, wall and paddle collision, exit
//! detection, scoring, and the paused/playing state machine.  Rendering and
//! keyboard polling are left to a thin driver around the library; the
//! library hands it plain draw commands and takes plain key flags back.

use vstd::prelude::*;

pub mod ball;
pub mod game;
pub mod paddle;

verus! {

/// Width of the playing field in pixels.
pub const SCREEN_WIDTH: i32 = 640;

/// Height of the playing field in pixels.
pub const SCREEN_HEIGHT: i32 = 480;

/// An axis-aligned rectangle handed to the drawing surface.
#[derive(Clone, Copy, Debug, PartialEq, Eq, Structural)]
pub struct Rect {
    pub x: i32,
    pub y: i32,
    pub w: i32,
    pub h: i32,
}

} // verus!

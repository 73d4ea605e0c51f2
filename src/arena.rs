//! Units and the fixed dimensions of the playing field.
use vstd::prelude::*;

verus! {

/// Micro-pixels in one pixel: every coordinate is counted in micro-pixels.
pub const PIXEL: i64 = 1_000_000;

/// Width of the arena.
pub const SCREEN_WIDTH: i64 = 500 * PIXEL;

/// Height of the arena; `y` grows downwards.
pub const SCREEN_HEIGHT: i64 = 250 * PIXEL;

/// Half the length of a paddle, measured from its centre.
pub const BAR_LENGTH: i64 = 25 * PIXEL;

/// Distance of a paddle's face from its own side wall.
pub const BAR_FACE: i64 = 15 * PIXEL;

/// Distance of a paddle's back from its own side wall.
pub const BAR_BACK: i64 = 10 * PIXEL;

/// Ball speed in pixels per second, which is micro-pixels per microsecond.
pub const BALL_SPEED: i64 = 200;

/// Paddle speed in pixels per second, which is micro-pixels per microsecond.
pub const BAR_SPEED: i64 = 100;

/// Side of the square drawn for the ball.
pub const BALL_SIZE: i64 = 5 * PIXEL;

/// Where the ball starts along `x`, and where it returns after each point.
pub const BALL_START_X: i64 = 250 * PIXEL;

/// Where the ball starts along `y`, and where it returns after each point.
pub const BALL_START_Y: i64 = 125 * PIXEL;

/// Millidegrees in a quarter turn: one bounce rotates the ball by this much.
pub const QUARTER_TURN: u32 = 90_000;

/// Millidegrees in a full turn; a direction is kept below this.
pub const FULL_TURN: u32 = 360_000;

/// The ball's direction at the start of a game: an eighth of a turn.
pub const START_DIRECTION: u32 = 45_000;

/// Sine and cosine are given in millionths: this stands for 1.
pub const TRIG_UNIT: i64 = 1_000_000;

/// True when `v` can be held in an `i64`.
pub open spec fn fits_i64(v: int) -> bool {
    i64::MIN <= v <= i64::MAX
}

} // verus!

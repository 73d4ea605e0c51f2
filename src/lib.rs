//! A two-player Pong simulation on integer coordinates.
//!
//! Positions are micro-pixels, time is microseconds and angles are
//! millidegrees, so every rule of the game is exact integer arithmetic.

pub mod arena;
pub mod bar;
pub mod draw;
pub mod game;
pub mod input;
pub mod laws;

pub use arena::{
    fits_i64, BALL_SIZE, BALL_SPEED, BALL_START_X, BALL_START_Y, BAR_BACK, BAR_FACE, BAR_LENGTH,
    BAR_SPEED, FULL_TURN, PIXEL, QUARTER_TURN, SCREEN_HEIGHT, SCREEN_WIDTH, START_DIRECTION,
    TRIG_UNIT,
};
pub use bar::{Bar, Point, VerticalDir};
pub use game::{is_heading, start_point, travel, turned, App, Ball, Heading};
pub use draw::Rect;
pub use input::Key;

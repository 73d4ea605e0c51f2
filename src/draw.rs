//! The rectangles that stand for the ball and the paddles on screen.
use vstd::prelude::*;
use crate::arena::{BALL_SIZE, BAR_BACK, BAR_FACE, BAR_LENGTH, SCREEN_WIDTH};
use crate::game::App;

verus! {

/// An axis-aligned rectangle: top-left corner, width and height, in
/// micro-pixels. Wide integers hold corners of any position.
#[derive(Clone, Copy, Debug, PartialEq, Eq, Structural)]
pub struct Rect {
    pub x: i128,
    pub y: i128,
    pub width: i128,
    pub height: i128,
}

impl App {
    /// The ball's square, centred on the ball.
    pub fn ball_rect(&self) -> (r: Rect)
        ensures
            r.x == self.ball.position.x - BALL_SIZE / 2,
            r.y == self.ball.position.y - BALL_SIZE / 2,
            r.width == BALL_SIZE,
            r.height == BALL_SIZE,
    {
        Rect {
            x: self.ball.position.x as i128 - (BALL_SIZE / 2) as i128,
            y: self.ball.position.y as i128 - (BALL_SIZE / 2) as i128,
            width: BALL_SIZE as i128,
            height: BALL_SIZE as i128,
        }
    }

    /// The left paddle: between the back and the face, along its length.
    pub fn left_bar_rect(&self) -> (r: Rect)
        ensures
            r.x == BAR_BACK,
            r.y == self.left.position.y - BAR_LENGTH,
            r.width == BAR_FACE - BAR_BACK,
            r.height == 2 * BAR_LENGTH,
    {
        Rect {
            x: BAR_BACK as i128,
            y: self.left.position.y as i128 - BAR_LENGTH as i128,
            width: (BAR_FACE - BAR_BACK) as i128,
            height: 2 * BAR_LENGTH as i128,
        }
    }

    /// The right paddle: between the face and the back, along its length.
    pub fn right_bar_rect(&self) -> (r: Rect)
        ensures
            r.x == SCREEN_WIDTH - BAR_FACE,
            r.y == self.right.position.y - BAR_LENGTH,
            r.width == BAR_FACE - BAR_BACK,
            r.height == 2 * BAR_LENGTH,
    {
        Rect {
            x: (SCREEN_WIDTH - BAR_FACE) as i128,
            y: self.right.position.y as i128 - BAR_LENGTH as i128,
            width: (BAR_FACE - BAR_BACK) as i128,
            height: 2 * BAR_LENGTH as i128,
        }
    }
}

} // verus!

//! Points and paddles.
use vstd::prelude::*;
use crate::arena::{fits_i64, BAR_LENGTH, BAR_SPEED, SCREEN_HEIGHT};

verus! {

/// A position in the arena, in micro-pixels.
#[derive(Clone, Copy, Debug, PartialEq, Eq, Structural)]
pub struct Point {
    pub x: i64,
    pub y: i64,
}

/// Where a paddle is heading.
#[derive(Clone, Copy, Debug, PartialEq, Eq, Structural)]
pub enum VerticalDir {
    Up,
    Down,
    Stationary,
}

/// A paddle: its centre, where it is heading, and its player's score.
#[derive(Clone, Copy, Debug, PartialEq, Eq, Structural)]
pub struct Bar {
    pub position: Point,
    pub direction: VerticalDir,
    pub points: u64,
}

impl Bar {
    /// True when `p` lies within the paddle's vertical span, ends included.
    pub open spec fn covers(self, p: Point) -> bool {
        self.position.y - BAR_LENGTH <= p.y <= self.position.y + BAR_LENGTH
    }

    /// The heading kept for a tick: a paddle heading out past its end of the
    /// arena, judged by where it stands before it moves, comes to rest.
    pub open spec fn clamped(self) -> VerticalDir {
        if (self.direction == VerticalDir::Up && self.position.y < BAR_LENGTH) || (
        self.direction == VerticalDir::Down && self.position.y > SCREEN_HEIGHT - BAR_LENGTH) {
            VerticalDir::Stationary
        } else {
            self.direction
        }
    }

    /// The height after a tick of `dt` microseconds.
    pub open spec fn next_y(self, dt: int) -> int {
        match self.clamped() {
            VerticalDir::Up => self.position.y - BAR_SPEED * dt,
            VerticalDir::Down => self.position.y + BAR_SPEED * dt,
            VerticalDir::Stationary => self.position.y as int,
        }
    }

    /// The paddle after a tick of `dt` microseconds.
    pub open spec fn stepped(self, dt: int) -> Bar {
        Bar {
            position: Point { x: self.position.x, y: self.next_y(dt) as i64 },
            direction: self.clamped(),
            points: self.points,
        }
    }

    /// A paddle at rest in the vertical middle, with no points.
    pub open spec fn new_spec() -> Bar {
        Bar {
            position: Point { x: 0, y: (SCREEN_HEIGHT / 2) as i64 },
            direction: VerticalDir::Stationary,
            points: 0,
        }
    }

    /// A paddle at rest in the vertical middle, with no points.
    pub fn new() -> (b: Bar)
        ensures
            b == Bar::new_spec(),
    {
        Bar {
            position: Point { x: 0, y: SCREEN_HEIGHT / 2 },
            direction: VerticalDir::Stationary,
            points: 0,
        }
    }

    /// Whether the ball at `ball` meets the paddle; only heights are compared.
    pub fn intersect(&self, ball: &Point) -> (r: bool)
        ensures
            r == self.covers(*ball),
    {
        ball.y as i128 <= self.position.y as i128 + BAR_LENGTH as i128
            && ball.y as i128 >= self.position.y as i128 - BAR_LENGTH as i128
    }

    /// The height after a tick of `dt` microseconds, widened.
    pub fn reach(&self, dt: u64) -> (r: i128)
        ensures
            r == self.next_y(dt as int),
    {
        let step: i128 = BAR_SPEED as i128 * dt as i128;
        if self.direction == VerticalDir::Up && self.position.y >= BAR_LENGTH {
            self.position.y as i128 - step
        } else if self.direction == VerticalDir::Down && self.position.y <= SCREEN_HEIGHT
            - BAR_LENGTH {
            self.position.y as i128 + step
        } else {
            self.position.y as i128
        }
    }

    /// Moves the paddle for a tick of `dt` microseconds: first the stop at
    /// the arena's ends, then the move along the heading kept.
    pub fn advance(&mut self, dt: u64)
        requires
            fits_i64(old(self).next_y(dt as int)),
        ensures
            *final(self) == old(self).stepped(dt as int),
    {
        if (self.direction == VerticalDir::Up && self.position.y < BAR_LENGTH) || (self.direction
            == VerticalDir::Down && self.position.y > SCREEN_HEIGHT - BAR_LENGTH) {
            self.direction = VerticalDir::Stationary;
        }
        let step: i128 = BAR_SPEED as i128 * dt as i128;
        match self.direction {
            VerticalDir::Up => {
                self.position.y = (self.position.y as i128 - step) as i64;
            },
            VerticalDir::Down => {
                self.position.y = (self.position.y as i128 + step) as i64;
            },
            VerticalDir::Stationary => {},
        }
    }
}

} // verus!

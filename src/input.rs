//! Keys and what they do to the paddles.
use vstd::prelude::*;
use crate::bar::{Bar, VerticalDir};
use crate::game::App;

verus! {

/// The keys of the game: the arrows steer the right paddle, W and S the left.
#[derive(Clone, Copy, Debug, PartialEq, Eq, Structural)]
pub enum Key {
    Up,
    Down,
    W,
    S,
    /// Any key the game does not use.
    Other,
}

/// The paddle with its heading set to `d`.
pub open spec fn heading_to(b: Bar, d: VerticalDir) -> Bar {
    Bar { direction: d, ..b }
}

impl App {
    /// The state after `key` is pressed: up keys head their paddle up, down
    /// keys head it down, other keys change nothing.
    pub open spec fn pressed(self, key: Key) -> App {
        match key {
            Key::Up => App { right: heading_to(self.right, VerticalDir::Up), ..self },
            Key::Down => App { right: heading_to(self.right, VerticalDir::Down), ..self },
            Key::W => App { left: heading_to(self.left, VerticalDir::Up), ..self },
            Key::S => App { left: heading_to(self.left, VerticalDir::Down), ..self },
            Key::Other => self,
        }
    }

    /// The state after `key` is released: either key of a paddle stops it,
    /// whichever way it was heading; other keys change nothing.
    pub open spec fn released(self, key: Key) -> App {
        match key {
            Key::Up | Key::Down => App {
                right: heading_to(self.right, VerticalDir::Stationary),
                ..self
            },
            Key::W | Key::S => App { left: heading_to(self.left, VerticalDir::Stationary), ..self },
            Key::Other => self,
        }
    }

    /// Handles a key press; the result tells whether the game uses the key.
    pub fn press(&mut self, key: Key) -> (known: bool)
        ensures
            *final(self) == old(self).pressed(key),
            known == !(key is Other),
    {
        match key {
            Key::Up => {
                self.right.direction = VerticalDir::Up;
                true
            },
            Key::Down => {
                self.right.direction = VerticalDir::Down;
                true
            },
            Key::W => {
                self.left.direction = VerticalDir::Up;
                true
            },
            Key::S => {
                self.left.direction = VerticalDir::Down;
                true
            },
            Key::Other => false,
        }
    }

    /// Handles a key release.
    pub fn release(&mut self, key: Key)
        ensures
            *final(self) == old(self).released(key),
    {
        match key {
            Key::Up | Key::Down => {
                self.right.direction = VerticalDir::Stationary;
            },
            Key::W | Key::S => {
                self.left.direction = VerticalDir::Stationary;
            },
            Key::Other => {},
        }
    }
}

} // verus!

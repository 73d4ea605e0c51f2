//! The ball, the game state and the rules of one tick.
use vstd::prelude::*;
use crate::arena::{
    fits_i64, BALL_SPEED, BALL_START_X, BALL_START_Y, BAR_FACE, FULL_TURN, QUARTER_TURN,
    SCREEN_HEIGHT, SCREEN_WIDTH, START_DIRECTION, TRIG_UNIT,
};
use crate::bar::{Bar, Point};

verus! {

/// The ball: its centre and its direction in millidegrees.
///
/// Direction 0 moves the ball down (`+y`), a quarter turn moves it right
/// (`+x`): the ball travels by the direction's sine along `x` and by its
/// cosine along `y`.
#[derive(Clone, Copy, Debug, PartialEq, Eq, Structural)]
pub struct Ball {
    pub position: Point,
    pub direction: u32,
}

/// The sine and cosine of the ball's direction, in millionths.
#[derive(Clone, Copy, Debug, PartialEq, Eq, Structural)]
pub struct Heading {
    pub sin: i64,
    pub cos: i64,
}

/// The game: the ball and the left and right paddles.
#[derive(Clone, Copy, Debug, PartialEq, Eq, Structural)]
pub struct App {
    pub ball: Ball,
    pub left: Bar,
    pub right: Bar,
}

/// The point where the ball starts and returns to after each point.
pub open spec fn start_point() -> Point {
    Point { x: BALL_START_X, y: BALL_START_Y }
}

/// How far the ball travels along one axis in `dt` microseconds, where
/// `trig` is the direction's sine or cosine in millionths; rounded toward zero.
pub open spec fn travel(trig: int, dt: int) -> int {
    if trig >= 0 {
        (trig * (BALL_SPEED * dt)) / (TRIG_UNIT as int)
    } else {
        -(((-trig) * (BALL_SPEED * dt)) / (TRIG_UNIT as int))
    }
}

/// A direction turned by `by` millidegrees, brought back below a full turn.
pub open spec fn turned(direction: int, by: int) -> u32 {
    ((direction + by) % (FULL_TURN as int)) as u32
}

/// True when `h` holds a sine and a cosine: both lie between -1 and 1.
pub open spec fn is_heading(h: Heading) -> bool {
    -TRIG_UNIT <= h.sin <= TRIG_UNIT && -TRIG_UNIT <= h.cos <= TRIG_UNIT
}

fn travel_exec(trig: i64, dt: u64) -> (r: i128)
    requires
        -TRIG_UNIT <= trig <= TRIG_UNIT,
    ensures
        r == travel(trig as int, dt as int),
        -200 * dt <= r <= 200 * dt,
{
    let dist: u128 = BALL_SPEED as u128 * dt as u128;
    assert(dist == 200 * dt);
    let magnitude: u64 = if trig >= 0 {
        trig as u64
    } else {
        (-trig) as u64
    };
    assert(magnitude as int * dist <= 1_000_000 * (200 * 0xffff_ffff_ffff_ffffu128)) by (nonlinear_arith)
        requires
            magnitude <= 1_000_000,
            dist <= 200 * 0xffff_ffff_ffff_ffffu128,
    ;
    let q: u128 = magnitude as u128 * dist / TRIG_UNIT as u128;
    assert(magnitude as int * dist <= 1_000_000 * dist) by (nonlinear_arith)
        requires
            magnitude <= 1_000_000,
    ;
    assert(q <= dist) by (nonlinear_arith)
        requires
            q == magnitude as int * dist / 1_000_000,
            magnitude as int * dist <= 1_000_000 * dist,
    ;
    if trig >= 0 {
        q as i128
    } else {
        -(q as i128)
    }
}

impl Ball {
    /// The ball turned by a quarter turn, clockwise when `forward` holds.
    pub open spec fn rotated(self, forward: bool) -> Ball {
        Ball {
            position: self.position,
            direction: turned(
                self.direction as int,
                if forward {
                    QUARTER_TURN as int
                } else {
                    -(QUARTER_TURN as int)
                },
            ),
        }
    }

    fn rotate(&mut self, forward: bool)
        requires
            old(self).direction < FULL_TURN,
        ensures
            *final(self) == old(self).rotated(forward),
            final(self).direction < FULL_TURN,
    {
        if forward {
            self.direction = (self.direction + QUARTER_TURN) % FULL_TURN;
        } else {
            self.direction = (self.direction + (FULL_TURN - QUARTER_TURN)) % FULL_TURN;
        }
    }
}

impl App {
    /// Directions are kept below a full turn.
    pub open spec fn wf(self) -> bool {
        self.ball.direction < FULL_TURN
    }

    /// Where the ball's centre moves to along `x` in `dt` microseconds.
    pub open spec fn moved_x(self, dt: int, h: Heading) -> int {
        self.ball.position.x + travel(h.sin as int, dt)
    }

    /// Where the ball's centre moves to along `y` in `dt` microseconds.
    pub open spec fn moved_y(self, dt: int, h: Heading) -> int {
        self.ball.position.y + travel(h.cos as int, dt)
    }

    /// When a tick of `dt` microseconds can be played: `h` is a heading, and
    /// every new position and score can be held in its integer type.
    pub open spec fn can_update(self, dt: int, h: Heading) -> bool {
        &&& is_heading(h)
        &&& fits_i64(self.moved_x(dt, h))
        &&& fits_i64(self.moved_y(dt, h))
        &&& self.moved_x(dt, h) > SCREEN_WIDTH ==> self.left.points < u64::MAX
        &&& self.moved_x(dt, h) < 0 ==> self.right.points < u64::MAX
        &&& fits_i64(self.left.next_y(dt))
        &&& fits_i64(self.right.next_y(dt))
    }

    /// The state with the ball's centre put at `p`.
    pub open spec fn ball_at(self, p: Point) -> App {
        App { ball: Ball { position: p, direction: self.ball.direction }, ..self }
    }

    /// The ball back at the start, and a point more for the left player.
    pub open spec fn point_for_left(self) -> App {
        App {
            ball: Ball { position: start_point(), direction: self.ball.direction },
            left: Bar { points: (self.left.points + 1) as u64, ..self.left },
            right: self.right,
        }
    }

    /// The ball back at the start, and a point more for the right player.
    pub open spec fn point_for_right(self) -> App {
        App {
            ball: Ball { position: start_point(), direction: self.ball.direction },
            left: self.left,
            right: Bar { points: (self.right.points + 1) as u64, ..self.right },
        }
    }

    /// The state with the ball turned by a quarter turn.
    pub open spec fn ball_turned(self, forward: bool) -> App {
        App { ball: self.ball.rotated(forward), ..self }
    }

    /// The side walls and paddles: past the right wall scores for the left
    /// player, past the left wall for the right player; a paddle met at its
    /// face turns the ball a quarter turn (forward on the right, back on the left).
    pub open spec fn side_rule(self) -> App {
        let p = self.ball.position;
        if p.x >= SCREEN_WIDTH - BAR_FACE {
            if p.x > SCREEN_WIDTH {
                self.point_for_left()
            } else if self.right.covers(p) {
                self.ball_turned(true)
            } else {
                self
            }
        } else if p.x <= BAR_FACE {
            if p.x < 0 {
                self.point_for_right()
            } else if self.left.covers(p) {
                self.ball_turned(false)
            } else {
                self
            }
        } else {
            self
        }
    }

    /// The bottom and top walls: at or past the bottom the ball turns a
    /// quarter turn forward, at or past the top a quarter turn back.
    pub open spec fn wall_rule(self) -> App {
        let y = self.ball.position.y;
        if y >= SCREEN_HEIGHT {
            self.ball_turned(true)
        } else if y <= 0 {
            self.ball_turned(false)
        } else {
            self
        }
    }

    /// The state after the ball's part of a tick.
    pub open spec fn ball_step(self, dt: int, h: Heading) -> App {
        self.ball_at(
            Point { x: self.moved_x(dt, h) as i64, y: self.moved_y(dt, h) as i64 },
        ).side_rule().wall_rule()
    }

    /// The state after a whole tick of `dt` microseconds: the ball moves and
    /// meets walls and paddles, then each paddle moves.
    pub open spec fn next(self, dt: int, h: Heading) -> App {
        let s = self.ball_step(dt, h);
        App { ball: s.ball, left: s.left.stepped(dt), right: s.right.stepped(dt) }
    }

    /// A new game: the ball at the start heading an eighth of a turn, both
    /// paddles at rest in the middle with no points.
    pub fn new() -> (r: App)
        ensures
            r.wf(),
            r.ball.position == start_point(),
            r.ball.direction == START_DIRECTION,
            r.left == Bar::new_spec(),
            r.right == Bar::new_spec(),
    {
        App {
            ball: Ball { position: Point { x: BALL_START_X, y: BALL_START_Y }, direction: START_DIRECTION },
            left: Bar::new(),
            right: Bar::new(),
        }
    }

    fn apply_side_rule(&mut self)
        requires
            old(self).wf(),
            old(self).ball.position.x > SCREEN_WIDTH ==> old(self).left.points < u64::MAX,
            old(self).ball.position.x < 0 ==> old(self).right.points < u64::MAX,
        ensures
            *final(self) == old(self).side_rule(),
            final(self).wf(),
    {
        if self.ball.position.x >= SCREEN_WIDTH - BAR_FACE {
            if self.ball.position.x > SCREEN_WIDTH {
                self.ball.position = Point { x: BALL_START_X, y: BALL_START_Y };
                self.left.points = self.left.points + 1;
            } else if self.right.intersect(&self.ball.position) {
                self.ball.rotate(true);
            }
        } else if self.ball.position.x <= BAR_FACE {
            if self.ball.position.x < 0 {
                self.ball.position = Point { x: BALL_START_X, y: BALL_START_Y };
                self.right.points = self.right.points + 1;
            } else if self.left.intersect(&self.ball.position) {
                self.ball.rotate(false);
            }
        }
    }

    fn apply_wall_rule(&mut self)
        requires
            old(self).wf(),
        ensures
            *final(self) == old(self).wall_rule(),
            final(self).wf(),
    {
        if self.ball.position.y >= SCREEN_HEIGHT {
            self.ball.rotate(true);
        } else if self.ball.position.y <= 0 {
            self.ball.rotate(false);
        }
    }

    /// Plays one tick of `dt` microseconds, with `heading` the sine and
    /// cosine of the ball's direction.
    pub fn update(&mut self, dt: u64, heading: Heading)
        requires
            old(self).wf(),
            old(self).can_update(dt as int, heading),
        ensures
            *final(self) == old(self).next(dt as int, heading),
            final(self).wf(),
            0 <= final(self).ball.position.x <= SCREEN_WIDTH,
    {
        let dx = travel_exec(heading.sin, dt);
        let dy = travel_exec(heading.cos, dt);
        self.ball.position = Point {
            x: (self.ball.position.x as i128 + dx) as i64,
            y: (self.ball.position.y as i128 + dy) as i64,
        };
        self.apply_side_rule();
        self.apply_wall_rule();
        self.left.advance(dt);
        self.right.advance(dt);
    }

    /// Plays one tick as `update` does where it can be played, and reports
    /// whether it was; where it cannot, the state is left as it was.
    pub fn try_update(&mut self, dt: u64, heading: Heading) -> (played: bool)
        requires
            old(self).wf(),
        ensures
            played == old(self).can_update(dt as int, heading),
            played ==> *final(self) == old(self).next(dt as int, heading),
            !played ==> *final(self) == *old(self),
            final(self).wf(),
    {
        if !(-TRIG_UNIT <= heading.sin && heading.sin <= TRIG_UNIT && -TRIG_UNIT <= heading.cos
            && heading.cos <= TRIG_UNIT) {
            return false;
        }
        let x = self.ball.position.x as i128 + travel_exec(heading.sin, dt);
        let y = self.ball.position.y as i128 + travel_exec(heading.cos, dt);
        let left_y = self.left.reach(dt);
        let right_y = self.right.reach(dt);
        let fits = i64::MIN as i128 <= x && x <= i64::MAX as i128 && i64::MIN as i128 <= y && y
            <= i64::MAX as i128 && i64::MIN as i128 <= left_y && left_y <= i64::MAX as i128
            && i64::MIN as i128 <= right_y && right_y <= i64::MAX as i128;
        let scores = (x <= SCREEN_WIDTH as i128 || self.left.points < u64::MAX) && (x >= 0
            || self.right.points < u64::MAX);
        if fits && scores {
            self.update(dt, heading);
            true
        } else {
            false
        }
    }
}

} // verus!

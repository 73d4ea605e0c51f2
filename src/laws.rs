//! Properties of the game that hold across ticks and key events.
use vstd::prelude::*;
use crate::arena::SCREEN_WIDTH;
use crate::bar::VerticalDir;
use crate::game::{start_point, travel, App, Heading};
use crate::input::Key;

verus! {

/// In a tick the ball's centre moves by exactly the direction's sine and
/// cosine times the ball's speed and the time; the walls and paddles only
/// turn it, except that a ball leaving past a side wall goes back to the start.
pub proof fn lemma_ball_displacement(s: App, dt: int, h: Heading)
    requires
        s.wf(),
        s.can_update(dt, h),
    ensures
        ({
            let n = s.next(dt, h);
            let x = s.ball.position.x + travel(h.sin as int, dt);
            let y = s.ball.position.y + travel(h.cos as int, dt);
            &&& 0 <= x <= SCREEN_WIDTH ==> n.ball.position.x == x && n.ball.position.y == y
            &&& !(0 <= x <= SCREEN_WIDTH) ==> n.ball.position == start_point()
        }),
{
}

/// Scores never go down: in a tick at most one player gains a point, and
/// only one.
pub proof fn lemma_scores_grow(s: App, dt: int, h: Heading)
    requires
        s.wf(),
        s.can_update(dt, h),
    ensures
        ({
            let n = s.next(dt, h);
            &&& s.left.points <= n.left.points <= s.left.points + 1
            &&& s.right.points <= n.right.points <= s.right.points + 1
            &&& n.left.points + n.right.points <= s.left.points + s.right.points + 1
        }),
{
}

/// Pressing the same key twice is the same as pressing it once.
pub proof fn lemma_press_twice(s: App, key: Key)
    ensures
        s.pressed(key).pressed(key) == s.pressed(key),
{
}

/// Releasing either key of a paddle stops that paddle, whichever way it was
/// heading.
pub proof fn lemma_release_stops(s: App, key: Key)
    ensures
        (key is Up || key is Down) ==> s.released(key).right.direction
            == VerticalDir::Stationary,
        (key is W || key is S) ==> s.released(key).left.direction == VerticalDir::Stationary,
{
}

/// A ball that leaves past the left wall and then, from the start, past the
/// right wall gives each player one point, and is back at the start after
/// each of the two ticks.
pub proof fn lemma_scoring_cycle(s: App, dt1: int, h1: Heading, dt2: int, h2: Heading)
    requires
        s.wf(),
        s.can_update(dt1, h1),
        s.ball.position.x + travel(h1.sin as int, dt1) < 0,
        s.next(dt1, h1).can_update(dt2, h2),
        start_point().x + travel(h2.sin as int, dt2) > SCREEN_WIDTH,
    ensures
        ({
            let s1 = s.next(dt1, h1);
            let s2 = s1.next(dt2, h2);
            &&& s1.ball.position == start_point()
            &&& s1.left.points == s.left.points
            &&& s1.right.points == s.right.points + 1
            &&& s2.ball.position == start_point()
            &&& s2.left.points == s.left.points + 1
            &&& s2.right.points == s.right.points + 1
        }),
{
}

} // verus!

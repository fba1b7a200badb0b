//! Four-way compass direction and the input-resolution rule.

use vstd::prelude::*;

verus! {

/// A four-way compass direction. The head segment of the snake always carries
/// its current direction of travel.
#[derive(Clone, Copy, Debug, PartialEq, Eq, Structural)]
pub enum Direction {
    Left,
    Up,
    Right,
    Down,
}

/// The direction opposite to `d`: Left pairs with Right and Up pairs with Down.
pub open spec fn opposite_of(d: Direction) -> Direction {
    match d {
        Direction::Left => Direction::Right,
        Direction::Right => Direction::Left,
        Direction::Up => Direction::Down,
        Direction::Down => Direction::Up,
    }
}

impl Direction {
    /// The direction opposite to `self` (Left↔Right, Up↔Down).
    pub fn opposite(self) -> (r: Direction)
        ensures
            r == opposite_of(self),
    {
        match self {
            Direction::Left => Direction::Right,
            Direction::Right => Direction::Left,
            Direction::Up => Direction::Down,
            Direction::Down => Direction::Up,
        }
    }
}

/// Taking the opposite twice returns the original direction.
pub proof fn lemma_opposite_involutive(d: Direction)
    ensures
        opposite_of(opposite_of(d)) == d,
{
}

/// No direction is its own opposite.
pub proof fn lemma_opposite_irreflexive(d: Direction)
    ensures
        opposite_of(d) != d,
{
}

/// The candidate direction read from the currently held keys, by the fixed
/// priority order Left > Down > Up > Right; with no key held, the current
/// direction is retained.
pub open spec fn candidate_direction(
    left: bool,
    down: bool,
    up: bool,
    right: bool,
    current: Direction,
) -> Direction {
    if left {
        Direction::Left
    } else if down {
        Direction::Down
    } else if up {
        Direction::Up
    } else if right {
        Direction::Right
    } else {
        current
    }
}

/// The direction the head travels after one input-resolution pass: the
/// candidate from the held keys, unless it would reverse the current
/// direction, in which case the current direction is kept.
pub open spec fn resolved_direction(
    left: bool,
    down: bool,
    up: bool,
    right: bool,
    current: Direction,
) -> Direction {
    let candidate = candidate_direction(left, down, up, right, current);
    if candidate == opposite_of(current) {
        current
    } else {
        candidate
    }
}

/// Input resolution never turns the head to the opposite of its current
/// direction, whatever combination of keys is held.
pub proof fn lemma_input_never_reverses(
    left: bool,
    down: bool,
    up: bool,
    right: bool,
    current: Direction,
)
    ensures
        resolved_direction(left, down, up, right, current) != opposite_of(current),
{
    lemma_opposite_irreflexive(current);
}

} // verus!

//! Grid cell coordinates and the arena bounds.

use vstd::prelude::*;
use crate::direction::Direction;

verus! {

/// Width of the logical arena, in cells.
pub const ARENA_WIDTH: u32 = 10;

/// Height of the logical arena, in cells.
pub const ARENA_HEIGHT: u32 = 10;

/// An integer cell coordinate on the grid. The type itself enforces no
/// bounds: the movement engine neither clamps nor wraps, so the head may
/// leave the arena.
#[derive(Clone, Copy, Debug, PartialEq, Eq, Structural)]
pub struct Position {
    pub x: i32,
    pub y: i32,
}

/// Horizontal displacement of one movement step in direction `d`.
pub open spec fn dx(d: Direction) -> int {
    match d {
        Direction::Left => -1,
        Direction::Right => 1,
        Direction::Up => 0,
        Direction::Down => 0,
    }
}

/// Vertical displacement of one movement step in direction `d`.
/// The axis convention has Up increasing `y`.
pub open spec fn dy(d: Direction) -> int {
    match d {
        Direction::Left => 0,
        Direction::Right => 0,
        Direction::Up => 1,
        Direction::Down => -1,
    }
}

/// Whether one step from `p` in direction `d` stays within the machine
/// range of the coordinates.
pub open spec fn can_step(p: Position, d: Direction) -> bool {
    &&& i32::MIN <= p.x + dx(d) <= i32::MAX
    &&& i32::MIN <= p.y + dy(d) <= i32::MAX
}

/// Whether `p` lies within the arena: `[0, ARENA_WIDTH) x [0, ARENA_HEIGHT)`.
pub open spec fn in_arena(p: Position) -> bool {
    &&& 0 <= p.x < ARENA_WIDTH
    &&& 0 <= p.y < ARENA_HEIGHT
}

impl Position {
    /// The cell one step from `self` in direction `d`:
    /// Left is `x-1`, Right is `x+1`, Up is `y+1`, Down is `y-1`.
    pub fn step(self, d: Direction) -> (r: Position)
        requires
            can_step(self, d),
        ensures
            r.x == self.x + dx(d),
            r.y == self.y + dy(d),
    {
        match d {
            Direction::Left => Position { x: self.x - 1, y: self.y },
            Direction::Right => Position { x: self.x + 1, y: self.y },
            Direction::Up => Position { x: self.x, y: self.y + 1 },
            Direction::Down => Position { x: self.x, y: self.y - 1 },
        }
    }
}

} // verus!

//! Simulation core of a grid-based snake game.
//!
//! The library models the movement, growth, and collision state machine of a
//! snake on a fixed discrete arena: a chain of body segments advances on a
//! fixed tick, input is filtered by the no-reverse rule, food spawns at random
//! cells, and head/food collisions grow the chain by one segment.
//! Rendering, input-device polling, and clock plumbing are external
//! collaborators: callers hand the core elapsed time and held keys as plain
//! values and read back position snapshots.

pub mod chain;
pub mod direction;
pub mod game;
pub mod position;
pub mod timer;

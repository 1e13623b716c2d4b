use vstd::prelude::*;

use crate::constants::{COORD_LIMIT, MAX_SPEED, MAX_WINDOW_SIZE};

verus! {

/// A point of the world, in micropixels; `y` grows upwards.
#[derive(Clone, Copy, Debug, PartialEq, Eq, Structural)]
pub struct Position {
    pub x: i64,
    pub y: i64,
}

impl Position {
    /// Both coordinates lie within the range that one update accepts.
    pub open spec fn in_range(&self) -> bool {
        &&& -COORD_LIMIT <= self.x <= COORD_LIMIT
        &&& -COORD_LIMIT <= self.y <= COORD_LIMIT
    }
}

/// What the simulation knows of the window: its size in micropixels.
#[derive(Clone, Copy, Debug, PartialEq, Eq, Structural)]
pub struct GameManager {
    pub window_width: i64,
    pub window_height: i64,
}

impl GameManager {
    /// A window with a positive size of at most `MAX_WINDOW_SIZE` on each side.
    pub open spec fn wf(&self) -> bool {
        &&& 0 < self.window_width <= MAX_WINDOW_SIZE
        &&& 0 < self.window_height <= MAX_WINDOW_SIZE
    }
}

/// The player: its vertical velocity, in micropixels per millisecond.
#[derive(Clone, Copy, Debug, PartialEq, Eq, Structural)]
pub struct Bird {
    pub velocity: i64,
}

/// A pipe: `1` for a top pipe, `-1` for a bottom pipe.
#[derive(Clone, Copy, Debug, PartialEq, Eq, Structural)]
pub struct Obstacle {
    pub pipe_direction: i64,
}

/// A pipe together with the position of its centre.
#[derive(Clone, Copy, Debug, PartialEq, Eq, Structural)]
pub struct Pipe {
    pub obstacle: Obstacle,
    pub position: Position,
}

impl Pipe {
    /// A top or bottom pipe whose centre lies within the accepted range.
    pub open spec fn in_range(&self) -> bool {
        &&& self.position.in_range()
        &&& (self.obstacle.pipe_direction == 1 || self.obstacle.pipe_direction == -1)
    }
}

/// Every pipe of `pipes` is in range.
pub open spec fn pipes_in_range(pipes: Seq<Pipe>) -> bool {
    forall|i: int| 0 <= i < pipes.len() ==> #[trigger] pipes[i].in_range()
}

/// The whole simulation state: one bird and the pipes, in order of creation.
#[derive(Clone, Debug)]
pub struct World {
    pub bird: Bird,
    pub bird_position: Position,
    /// The bird's tilt, in millidegrees.
    pub bird_tilt: i64,
    pub obstacles: Vec<Pipe>,
}

impl World {
    /// The bird and every pipe lie within the range that one update accepts.
    pub open spec fn in_range(&self) -> bool {
        &&& -MAX_SPEED <= self.bird.velocity <= MAX_SPEED
        &&& self.bird_position.in_range()
        &&& pipes_in_range(self.obstacles@)
    }
}

} // verus!

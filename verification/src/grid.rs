//! Grid coordinates and the four directions of travel.

use vstd::prelude::*;

verus! {

/// A cell of the grid, addressed by column `x` and row `y`.
#[derive(Clone, Copy, PartialEq, Eq, Debug, Structural)]
pub struct Position {
    pub x: i32,
    pub y: i32,
}

/// A direction of travel. `Up` increases `y`, `Right` increases `x`.
#[derive(Clone, Copy, PartialEq, Eq, Debug, Structural)]
pub enum Direction {
    Left,
    Up,
    Right,
    Down,
}

impl Direction {
    /// The direction pointing the other way: `Left` and `Right` swap, `Up` and `Down` swap.
    pub open spec fn spec_opposite(self) -> Direction {
        match self {
            Direction::Left => Direction::Right,
            Direction::Right => Direction::Left,
            Direction::Up => Direction::Down,
            Direction::Down => Direction::Up,
        }
    }

    /// Horizontal part of the unit offset of this direction.
    pub open spec fn dx(self) -> int {
        match self {
            Direction::Left => -1,
            Direction::Right => 1,
            Direction::Up => 0,
            Direction::Down => 0,
        }
    }

    /// Vertical part of the unit offset of this direction.
    pub open spec fn dy(self) -> int {
        match self {
            Direction::Left => 0,
            Direction::Right => 0,
            Direction::Up => 1,
            Direction::Down => -1,
        }
    }

    /// Returns the direction pointing the other way.
    #[verifier::when_used_as_spec(spec_opposite)]
    pub fn opposite(self) -> (r: Direction)
        ensures
            r == self.spec_opposite(),
    {
        match self {
            Direction::Left => Direction::Right,
            Direction::Right => Direction::Left,
            Direction::Up => Direction::Down,
            Direction::Down => Direction::Up,
        }
    }
}

impl Position {
    /// The cell one step away from `self` in direction `d`, for every
    /// position whose neighbour has `i32` coordinates.
    pub open spec fn spec_step(self, d: Direction) -> Position {
        Position { x: (self.x + d.dx()) as i32, y: (self.y + d.dy()) as i32 }
    }

    /// Returns the cell one step away in direction `d`: `Left` and `Right`
    /// change `x` by one, `Down` and `Up` change `y` by one.
    #[verifier::when_used_as_spec(spec_step)]
    pub fn step(self, d: Direction) -> (r: Position)
        requires
            i32::MIN < self.x < i32::MAX,
            i32::MIN < self.y < i32::MAX,
        ensures
            r == self.spec_step(d),
            r.x == self.x + d.dx(),
            r.y == self.y + d.dy(),
    {
        match d {
            Direction::Left => Position { x: self.x - 1, y: self.y },
            Direction::Right => Position { x: self.x + 1, y: self.y },
            Direction::Up => Position { x: self.x, y: self.y + 1 },
            Direction::Down => Position { x: self.x, y: self.y - 1 },
        }
    }
}

} // verus!

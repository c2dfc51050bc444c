//! Arena dimensions and the snake's starting placement.

use vstd::prelude::*;
use crate::grid::{Direction, Position};

verus! {

/// Width of the standard arena, in cells.
pub const ARENA_WIDTH: u32 = 20;

/// Height of the standard arena, in cells.
pub const ARENA_HEIGHT: u32 = 20;

/// Why a configuration or a snake placement was turned down.
#[derive(Clone, Copy, PartialEq, Eq, Debug, Structural)]
pub enum SetupError {
    /// The arena has no cells: its width or its height is zero.
    EmptyArena,
    /// A dimension exceeds `i32::MAX`, so coordinates could not address every cell.
    ArenaTooLarge,
    /// A snake needs at least a head.
    EmptyBody,
    /// A segment lies outside the arena.
    OutsideArena,
    /// Two segments share a cell.
    Overlap,
}

/// Settings fixed when a game is created: the arena and the two-segment
/// snake that every game, and every restart, begins with.
#[derive(Clone, Copy, PartialEq, Eq, Debug, Structural)]
pub struct Config {
    /// Number of columns; valid `x` coordinates are `0..width`.
    pub width: u32,
    /// Number of rows; valid `y` coordinates are `0..height`.
    pub height: u32,
    /// Where the head starts.
    pub head: Position,
    /// Where the single trailing segment starts.
    pub tail: Position,
    /// The direction the snake starts out in.
    pub direction: Direction,
}

impl Config {
    /// `p` is a cell of the arena.
    pub open spec fn contains(self, p: Position) -> bool {
        0 <= p.x < self.width && 0 <= p.y < self.height
    }

    /// The exact integer cell `(x, y)` is a cell of the arena.
    pub open spec fn contains_cell(self, x: int, y: int) -> bool {
        0 <= x < self.width && 0 <= y < self.height
    }

    /// The arena is non-empty and every cell of it has `i32` coordinates.
    pub open spec fn arena_ok(self) -> bool {
        0 < self.width <= i32::MAX && 0 < self.height <= i32::MAX
    }

    /// The verdict on this configuration: the first defect found, looking
    /// at the arena's size before the starting placement.
    pub open spec fn check(self) -> Result<(), SetupError> {
        if self.width == 0 || self.height == 0 {
            Err(SetupError::EmptyArena)
        } else if self.width > i32::MAX || self.height > i32::MAX {
            Err(SetupError::ArenaTooLarge)
        } else if !self.contains(self.head) || !self.contains(self.tail) {
            Err(SetupError::OutsideArena)
        } else if self.head == self.tail {
            Err(SetupError::Overlap)
        } else {
            Ok(())
        }
    }

    /// The configuration can start a game.
    pub open spec fn valid(self) -> bool {
        &&& self.arena_ok()
        &&& self.contains(self.head)
        &&& self.contains(self.tail)
        &&& self.head != self.tail
    }

    /// The starting snake, head first.
    pub open spec fn start_body(self) -> Seq<Position> {
        seq![self.head, self.tail]
    }

    /// The standard game: a 20 by 20 arena, the head at (3, 3) with one
    /// segment below it at (3, 2), heading up.
    pub open spec fn spec_standard() -> Config {
        Config {
            width: ARENA_WIDTH,
            height: ARENA_HEIGHT,
            head: Position { x: 3, y: 3 },
            tail: Position { x: 3, y: 2 },
            direction: Direction::Up,
        }
    }

    /// Returns the standard configuration.
    #[verifier::when_used_as_spec(spec_standard)]
    pub fn standard() -> (c: Config)
        ensures
            c == Config::spec_standard(),
            c.valid(),
    {
        Config {
            width: ARENA_WIDTH,
            height: ARENA_HEIGHT,
            head: Position { x: 3, y: 3 },
            tail: Position { x: 3, y: 2 },
            direction: Direction::Up,
        }
    }

    /// Tells whether `p` is a cell of the arena.
    pub fn in_arena(&self, p: Position) -> (r: bool)
        ensures
            r == self.contains(p),
    {
        let x = p.x as i64;
        let y = p.y as i64;
        0 <= x && x < self.width as i64 && 0 <= y && y < self.height as i64
    }

    /// Examines the configuration and reports its first defect, if any.
    pub fn validate(&self) -> (r: Result<(), SetupError>)
        ensures
            r == self.check(),
            r is Ok <==> self.valid(),
    {
        if self.width == 0 || self.height == 0 {
            Err(SetupError::EmptyArena)
        } else if self.width > 0x7fff_ffff || self.height > 0x7fff_ffff {
            Err(SetupError::ArenaTooLarge)
        } else if !self.in_arena(self.head) || !self.in_arena(self.tail) {
            Err(SetupError::OutsideArena)
        } else if self.head == self.tail {
            Err(SetupError::Overlap)
        } else {
            Ok(())
        }
    }
}

/// Every position of `body` is a cell of `config`'s arena.
pub open spec fn all_inside(config: Config, body: Seq<Position>) -> bool {
    forall|i: int| 0 <= i < body.len() ==> config.contains(#[trigger] body[i])
}

/// The verdict on starting a game in `config` with the snake `body`: a
/// defect of the configuration first, then an empty body, then a segment
/// outside the arena, then two segments on one cell.
pub open spec fn placement_check(config: Config, body: Seq<Position>) -> Result<(), SetupError> {
    if config.check() is Err {
        config.check()
    } else if body.len() == 0 {
        Err(SetupError::EmptyBody)
    } else if !all_inside(config, body) {
        Err(SetupError::OutsideArena)
    } else if !body.no_duplicates() {
        Err(SetupError::Overlap)
    } else {
        Ok(())
    }
}

/// Tells whether every position of `body` is a cell of `config`'s arena.
pub fn inside_arena(config: &Config, body: &Vec<Position>) -> (r: bool)
    ensures
        r == all_inside(*config, body@),
{
    let mut i: usize = 0;
    while i < body.len()
        invariant
            i <= body.len(),
            forall|j: int| 0 <= j < i ==> config.contains(#[trigger] body@[j]),
        decreases body.len() - i,
    {
        if !config.in_arena(body[i]) {
            return false;
        }
        i += 1;
    }
    true
}

/// Tells whether no two positions of `body` are equal.
pub fn all_distinct(body: &Vec<Position>) -> (r: bool)
    ensures
        r == body@.no_duplicates(),
{
    let mut i: usize = 0;
    while i < body.len()
        invariant
            i <= body.len(),
            forall|a: int, b: int| 0 <= a < i && a < b < body.len() ==> body@[a] != body@[b],
        decreases body.len() - i,
    {
        let mut j: usize = i + 1;
        while j < body.len()
            invariant
                i < j <= body.len(),
                forall|b: int| i < b < j ==> body@[i as int] != body@[b],
            decreases body.len() - j,
        {
            if body[i] == body[j] {
                return false;
            }
            j += 1;
        }
        i += 1;
    }
    true
}

/// Examines a snake placement and reports its first defect, if any.
pub fn check_placement(config: &Config, body: &Vec<Position>) -> (r: Result<(), SetupError>)
    ensures
        r == placement_check(*config, body@),
{
    match config.validate() {
        Err(e) => Err(e),
        Ok(()) => {
            if body.len() == 0 {
                Err(SetupError::EmptyBody)
            } else if !inside_arena(config, body) {
                Err(SetupError::OutsideArena)
            } else if !all_distinct(body) {
                Err(SetupError::Overlap)
            } else {
                Ok(())
            }
        },
    }
}

} // verus!

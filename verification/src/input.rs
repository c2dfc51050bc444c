//! The direction latch: turning asserted keys into the snake's heading.

use vstd::prelude::*;
use crate::grid::Direction;

verus! {

/// The directional keys that are held down at one polling step.
#[derive(Clone, Copy, PartialEq, Eq, Debug, Structural)]
pub struct DirectionalInput {
    pub left: bool,
    pub right: bool,
    pub up: bool,
    pub down: bool,
}

impl DirectionalInput {
    /// The one direction read from the keys. When several are held the
    /// first of left, right, down, up wins; with none held there is none.
    pub open spec fn candidate(self) -> Option<Direction> {
        if self.left {
            Some(Direction::Left)
        } else if self.right {
            Some(Direction::Right)
        } else if self.down {
            Some(Direction::Down)
        } else if self.up {
            Some(Direction::Up)
        } else {
            None
        }
    }

    /// No key held.
    pub open spec fn spec_none() -> DirectionalInput {
        DirectionalInput { left: false, right: false, up: false, down: false }
    }

    /// Exactly the key for `d` held.
    pub open spec fn spec_only(d: Direction) -> DirectionalInput {
        DirectionalInput {
            left: d == Direction::Left,
            right: d == Direction::Right,
            up: d == Direction::Up,
            down: d == Direction::Down,
        }
    }

    /// Returns the input with no key held.
    #[verifier::when_used_as_spec(spec_none)]
    pub fn none() -> (r: DirectionalInput)
        ensures
            r == DirectionalInput::spec_none(),
    {
        DirectionalInput { left: false, right: false, up: false, down: false }
    }

    /// Returns the input with exactly the key for `d` held.
    #[verifier::when_used_as_spec(spec_only)]
    pub fn only(d: Direction) -> (r: DirectionalInput)
        ensures
            r == DirectionalInput::spec_only(d),
            r.candidate() == Some(d),
    {
        match d {
            Direction::Left => DirectionalInput { left: true, right: false, up: false, down: false },
            Direction::Right => DirectionalInput { left: false, right: true, up: false, down: false },
            Direction::Up => DirectionalInput { left: false, right: false, up: true, down: false },
            Direction::Down => DirectionalInput { left: false, right: false, up: false, down: true },
        }
    }

    /// Reads at most one direction from the keys, by fixed priority.
    pub fn selected(&self) -> (r: Option<Direction>)
        ensures
            r == self.candidate(),
    {
        if self.left {
            Some(Direction::Left)
        } else if self.right {
            Some(Direction::Right)
        } else if self.down {
            Some(Direction::Down)
        } else if self.up {
            Some(Direction::Up)
        } else {
            None
        }
    }
}

/// The heading after one latch: the direction read from `input`, unless
/// there is none or it would turn the snake straight back on itself, in
/// which case `current` stays.
pub open spec fn latched(current: Direction, input: DirectionalInput) -> Direction {
    match input.candidate() {
        Some(d) => if d == current.spec_opposite() {
            current
        } else {
            d
        },
        None => current,
    }
}

/// Computes the heading after one latch of `input` onto `current`.
pub fn latch(current: Direction, input: DirectionalInput) -> (r: Direction)
    ensures
        r == latched(current, input),
        r != current.spec_opposite(),
        input.candidate() is None ==> r == current,
{
    match input.selected() {
        Some(d) => {
            if d == current.opposite() {
                current
            } else {
                d
            }
        },
        None => current,
    }
}

} // verus!

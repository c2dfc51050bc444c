//! The game as a state machine over mathematical values.
//!
//! [`GameState`] is what a [`crate::Game`] stands for in contracts, and
//! each step of the engine is defined here as a function from state to
//! state. The executable engine is proved to compute exactly these.

use vstd::prelude::*;
use crate::config::{all_inside, Config};
use crate::grid::{Direction, Position};
use crate::input::{latched, DirectionalInput};

verus! {

/// What kind of thing a drawable entity is.
#[derive(Clone, Copy, PartialEq, Eq, Debug, Structural)]
pub enum EntityKind {
    Head,
    Segment,
    Food,
}

/// One live entity, as handed to a renderer.
#[derive(Clone, Copy, PartialEq, Eq, Debug, Structural)]
pub struct Entity {
    pub kind: EntityKind,
    pub position: Position,
    /// Side of the square to draw, in hundredths of a cell.
    pub size_percent: u32,
}

/// The whole simulation state.
///
/// A segment has no name of its own: segments are only ever appended at
/// the tail or discarded all together, so its index in `body` identifies
/// it for as long as it lives.
#[verifier::ext_equal]
pub struct GameState {
    /// The settings the game was created with.
    pub config: Config,
    /// Positions of the segments, head first.
    pub body: Seq<Position>,
    /// The head's current heading.
    pub direction: Direction,
    /// The food on the board, if there is any.
    pub food: Option<Position>,
    /// Where the tail was before the latest move, until growth uses it up.
    pub last_tail: Option<Position>,
    /// A growth signal is waiting for its handler.
    pub growth: bool,
    /// A game-over signal is waiting for its handler.
    pub game_over: bool,
}

/// What the host can do to a game between two frames.
pub enum Event {
    /// The movement timer fired.
    Tick,
    /// The keys were polled.
    Keys(DirectionalInput),
    /// The food timer fired and drew this cell.
    Food(Position),
}

impl GameState {
    /// The state every game starts in and every reset returns to: the
    /// configured two-segment snake, no food, nothing pending.
    pub open spec fn initial(config: Config) -> GameState {
        GameState {
            config,
            body: config.start_body(),
            direction: config.direction,
            food: None,
            last_tail: None,
            growth: false,
            game_over: false,
        }
    }

    /// Structural validity, kept by every operation of the engine.
    ///
    /// The body is never empty, food and the remembered tail lie inside
    /// the arena, and so does every segment. The one exception is the
    /// moment between a fatal move and its reset: while a game-over signal
    /// is pending the body is about to be discarded and may hold the
    /// offending head.
    pub open spec fn wf(self) -> bool {
        &&& self.config.valid()
        &&& self.body.len() >= 1
        &&& !self.game_over ==> all_inside(self.config, self.body)
        &&& self.food matches Some(f) ==> self.config.contains(f)
        &&& self.last_tail matches Some(t) ==> self.config.contains(t)
    }

    /// Valid and not waiting for a reset.
    pub open spec fn running(self) -> bool {
        self.wf() && !self.game_over
    }

    /// The state between two ticks: running with no signal pending, no
    /// two segments on one cell, and neither the food nor the remembered
    /// tail under the snake.
    pub open spec fn settled(self) -> bool {
        &&& self.running()
        &&& !self.growth
        &&& self.body.no_duplicates()
        &&& self.food matches Some(f) ==> !self.body.contains(f)
        &&& self.last_tail matches Some(t) ==> !self.body.contains(t)
    }

    /// The head's position.
    pub open spec fn head(self) -> Position {
        self.body[0]
    }

    /// The position the head moves to on the next advance.
    pub open spec fn next_head(self) -> Position {
        self.head().spec_step(self.direction)
    }

    /// The next move takes the head out of the arena.
    pub open spec fn leaves_arena(self) -> bool {
        !self.config.contains_cell(
            self.head().x + self.direction.dx(),
            self.head().y + self.direction.dy(),
        )
    }

    /// The next move puts the head on a cell that some segment, the
    /// tail included, holds before the move.
    pub open spec fn bites_itself(self) -> bool {
        self.body.contains(self.next_head())
    }

    /// The next move is fatal.
    pub open spec fn collides(self) -> bool {
        self.leaves_arena() || self.bites_itself()
    }

    /// Raising the game-over signal. Signals do not count: raising one that
    /// is already pending changes nothing.
    pub open spec fn raise_game_over(self) -> GameState {
        GameState { game_over: true, ..self }
    }

    /// One movement step: the head takes its next position, every other
    /// segment takes the place its predecessor held before the step, the
    /// tail's old position is remembered, and a fatal move raises the
    /// game-over signal.
    pub open spec fn advance(self) -> GameState {
        GameState {
            body: seq![self.next_head()] + self.body.drop_last(),
            last_tail: Some(self.body.last()),
            game_over: self.game_over || self.collides(),
            ..self
        }
    }

    /// Resolving eating: food under the head is removed and a growth
    /// signal raised.
    pub open spec fn eat(self) -> GameState {
        if self.food == Some(self.head()) {
            GameState { food: None, growth: true, ..self }
        } else {
            self
        }
    }

    /// Handling growth: a pending signal is drained, and the remembered
    /// tail position, if there is one, is used up for a new last segment.
    pub open spec fn grow(self) -> GameState {
        if !self.growth {
            self
        } else {
            match self.last_tail {
                Some(t) => GameState {
                    body: self.body.push(t),
                    last_tail: None,
                    growth: false,
                    ..self
                },
                None => GameState { growth: false, ..self },
            }
        }
    }

    /// Starting over with the same settings.
    pub open spec fn reset(self) -> GameState {
        GameState::initial(self.config)
    }

    /// Handling game over: a pending signal resets the game.
    pub open spec fn handle_game_over(self) -> GameState {
        if self.game_over {
            self.reset()
        } else {
            self
        }
    }

    /// Latching the keys held at one polling step.
    pub open spec fn latch(self, input: DirectionalInput) -> GameState {
        GameState { direction: latched(self.direction, input), ..self }
    }

    /// `candidate` may become food: there is none yet, and the cell is in
    /// the arena and free of the snake.
    pub open spec fn can_spawn(self, candidate: Position) -> bool {
        &&& self.food is None
        &&& self.config.contains(candidate)
        &&& !self.body.contains(candidate)
    }

    /// One attempt to put food on `candidate`; nothing happens when the
    /// attempt is not allowed.
    pub open spec fn spawn_food(self, candidate: Position) -> GameState {
        if self.can_spawn(candidate) {
            GameState { food: Some(candidate), ..self }
        } else {
            self
        }
    }

    /// One full movement tick: the move, then either the reset that a fatal
    /// move calls for, or eating followed by growth.
    pub open spec fn tick(self) -> GameState {
        let moved = self.advance();
        if moved.game_over {
            moved.handle_game_over()
        } else {
            moved.eat().grow()
        }
    }

    /// The state after one event.
    pub open spec fn apply(self, event: Event) -> GameState {
        match event {
            Event::Tick => self.tick(),
            Event::Keys(input) => self.latch(input),
            Event::Food(candidate) => self.spawn_food(candidate),
        }
    }

    /// The state after a run of events, the first of them applied first.
    pub open spec fn run(self, events: Seq<Event>) -> GameState
        decreases events.len(),
    {
        if events.len() == 0 {
            self
        } else {
            self.run(events.drop_last()).apply(events.last())
        }
    }

    /// The live entities in drawing order: the head, the other segments
    /// from neck to tail, then the food.
    pub open spec fn entities(self) -> Seq<Entity> {
        let snake = Seq::new(
            self.body.len(),
            |i: int|
                Entity::spec_of(
                    if i == 0 {
                        EntityKind::Head
                    } else {
                        EntityKind::Segment
                    },
                    self.body[i],
                ),
        );
        match self.food {
            Some(f) => snake.push(Entity::spec_of(EntityKind::Food, f)),
            None => snake,
        }
    }
}

impl Entity {
    /// The entity of kind `kind` at `position`, drawn at the size of its kind.
    pub open spec fn spec_of(kind: EntityKind, position: Position) -> Entity {
        Entity { kind, position, size_percent: kind.spec_size_percent() }
    }

    /// Returns the entity of kind `kind` at `position`, with the size that
    /// goes with its kind.
    #[verifier::when_used_as_spec(spec_of)]
    pub fn of(kind: EntityKind, position: Position) -> (r: Entity)
        ensures
            r == Entity::spec_of(kind, position),
    {
        Entity { kind, position, size_percent: kind.size_percent() }
    }
}

impl EntityKind {
    /// Side of the entity's square, in hundredths of a cell.
    pub open spec fn spec_size_percent(self) -> u32 {
        match self {
            EntityKind::Head => 80,
            EntityKind::Segment => 65,
            EntityKind::Food => 80,
        }
    }

    /// Returns the side of the square an entity of this kind is drawn as,
    /// in hundredths of a cell. Segments are drawn a little smaller than
    /// the head and the food.
    #[verifier::when_used_as_spec(spec_size_percent)]
    pub fn size_percent(self) -> (r: u32)
        ensures
            r == self.spec_size_percent(),
    {
        match self {
            EntityKind::Head => 80,
            EntityKind::Segment => 65,
            EntityKind::Food => 80,
        }
    }
}

} // verus!

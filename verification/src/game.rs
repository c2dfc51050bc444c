//! The executable engine.

use vstd::prelude::*;
use crate::config::{check_placement, placement_check, Config, SetupError};
use crate::grid::{Direction, Position};
use crate::input::{latch, DirectionalInput};
use crate::laws::{lemma_initial_settled, lemma_tick_keeps_settled};
use crate::random::random_coordinate;
use crate::state::{Entity, EntityKind, GameState};

verus! {

/// A snake game in progress: the one owner of the body, the food, the
/// remembered tail position and the pending signals.
#[derive(Debug)]
pub struct Game {
    config: Config,
    segments: Vec<Position>,
    direction: Direction,
    food: Option<Position>,
    last_tail: Option<Position>,
    growth: bool,
    game_over: bool,
}

impl View for Game {
    type V = GameState;

    closed spec fn view(&self) -> GameState {
        GameState {
            config: self.config,
            body: self.segments@,
            direction: self.direction,
            food: self.food,
            last_tail: self.last_tail,
            growth: self.growth,
            game_over: self.game_over,
        }
    }
}

impl Clone for Game {
    fn clone(&self) -> (r: Game)
        ensures
            r@ == self@,
    {
        Game {
            config: self.config,
            segments: self.segments.clone(),
            direction: self.direction,
            food: self.food,
            last_tail: self.last_tail,
            growth: self.growth,
            game_over: self.game_over,
        }
    }
}

impl Game {
    /// Starts a game from `config`, or reports what is wrong with it.
    ///
    /// A new game holds the configured two-segment snake and heading, no
    /// food, no remembered tail position and no pending signal.
    pub fn new(config: Config) -> (r: Result<Game, SetupError>)
        ensures
            match r {
                Ok(game) => config.check() is Ok && game@ == GameState::initial(config)
                    && game@.settled(),
                Err(e) => config.check() == Err::<(), SetupError>(e),
            },
    {
        match config.validate() {
            Err(e) => Err(e),
            Ok(()) => {
                let mut game = Game {
                    config,
                    segments: Vec::new(),
                    direction: config.direction,
                    food: None,
                    last_tail: None,
                    growth: false,
                    game_over: false,
                };
                game.spawn_snake();
                proof {
                    lemma_initial_settled(config);
                }
                Ok(game)
            },
        }
    }

    /// Starts a game in `config` with the snake placed on `body`, head
    /// first, and heading in `direction`; or reports what is wrong.
    ///
    /// Apart from body and heading the game is as new. Resets return to
    /// the configured start, not to `body`.
    pub fn with_snake(config: Config, body: Vec<Position>, direction: Direction) -> (r: Result<
        Game,
        SetupError,
    >)
        ensures
            match r {
                Ok(game) => placement_check(config, body@) is Ok && game@ == (GameState {
                    body: body@,
                    direction,
                    ..GameState::initial(config)
                }) && game@.settled(),
                Err(e) => placement_check(config, body@) == Err::<(), SetupError>(e),
            },
    {
        match check_placement(&config, &body) {
            Err(e) => Err(e),
            Ok(()) => Ok(
                Game {
                    config,
                    segments: body,
                    direction,
                    food: None,
                    last_tail: None,
                    growth: false,
                    game_over: false,
                },
            ),
        }
    }

    /// Returns the settings the game was created with.
    pub fn config(&self) -> (r: Config)
        ensures
            r == self@.config,
    {
        self.config
    }

    /// Returns the snake's current heading.
    pub fn direction(&self) -> (r: Direction)
        ensures
            r == self@.direction,
    {
        self.direction
    }

    /// Returns the number of segments, the head included.
    pub fn len(&self) -> (r: usize)
        ensures
            r == self@.body.len(),
    {
        self.segments.len()
    }

    /// Returns the positions of all segments, head first.
    pub fn body(&self) -> (r: &Vec<Position>)
        ensures
            r@ == self@.body,
    {
        &self.segments
    }

    /// Returns the position of the segment with index `i`, counting from
    /// the head at 0, if there is one.
    pub fn segment(&self, i: usize) -> (r: Option<Position>)
        ensures
            r == if i < self@.body.len() {
                Some(self@.body[i as int])
            } else {
                None
            },
    {
        if i < self.segments.len() {
            Some(self.segments[i])
        } else {
            None
        }
    }

    /// Returns the head's position.
    pub fn head(&self) -> (r: Position)
        requires
            self@.wf(),
        ensures
            r == self@.head(),
    {
        self.segments[0]
    }

    /// Returns the position of the food, if there is any.
    pub fn food(&self) -> (r: Option<Position>)
        ensures
            r == self@.food,
    {
        self.food
    }

    /// Returns the tail position remembered from the latest move, unless
    /// growth has used it up.
    pub fn last_tail(&self) -> (r: Option<Position>)
        ensures
            r == self@.last_tail,
    {
        self.last_tail
    }

    /// Tells whether a growth signal is waiting for [`Game::snake_growth`].
    pub fn growth_pending(&self) -> (r: bool)
        ensures
            r == self@.growth,
    {
        self.growth
    }

    /// Tells whether a game-over signal is waiting for [`Game::game_over`].
    pub fn game_over_pending(&self) -> (r: bool)
        ensures
            r == self@.game_over,
    {
        self.game_over
    }

    /// Lists every live entity with its kind and position: the head, the
    /// other segments from neck to tail, then the food if there is any.
    pub fn entities(&self) -> (r: Vec<Entity>)
        ensures
            r@ == self@.entities(),
    {
        let mut out: Vec<Entity> = Vec::new();
        let mut i: usize = 0;
        while i < self.segments.len()
            invariant
                i <= self.segments.len(),
                out@.len() == i,
                forall|j: int| 0 <= j < i ==> out@[j] == self@.entities()[j],
            decreases self.segments.len() - i,
        {
            let kind = if i == 0 {
                EntityKind::Head
            } else {
                EntityKind::Segment
            };
            out.push(Entity::of(kind, self.segments[i]));
            i += 1;
        }
        match self.food {
            Some(f) => {
                out.push(Entity::of(EntityKind::Food, f));
            },
            None => {},
        }
        out
    }

    /// Tells whether some segment lies on `p`.
    pub fn occupies(&self, p: Position) -> (r: bool)
        ensures
            r == self@.body.contains(p),
    {
        let mut i: usize = 0;
        while i < self.segments.len()
            invariant
                i <= self.segments.len(),
                forall|j: int| 0 <= j < i ==> self.segments@[j] != p,
            decreases self.segments.len() - i,
        {
            if self.segments[i] == p {
                return true;
            }
            i += 1;
        }
        false
    }

    /// Raises the game-over signal.
    fn raise_game_over(&mut self)
        ensures
            final(self)@ == old(self)@.raise_game_over(),
    {
        self.game_over = true;
    }

    /// Moves the snake one cell in its current heading.
    ///
    /// Works from the positions all segments hold before the move: the
    /// head's destination is checked against the arena and against every
    /// one of them, each trailing segment steps into its predecessor's old
    /// place, and the tail's old place is remembered for growth. A fatal
    /// move raises the game-over signal and leaves the game waiting for
    /// [`Game::game_over`].
    pub fn snake_movement(&mut self)
        requires
            old(self)@.running(),
        ensures
            final(self)@ == old(self)@.advance(),
            final(self)@.wf(),
            final(self)@.game_over == old(self)@.collides(),
    {
        let n = self.segments.len();
        let head = self.segments[0];
        let tail = self.segments[n - 1];
        let new_head = head.step(self.direction);
        if !self.config.in_arena(new_head) {
            self.raise_game_over();
        }
        if self.occupies(new_head) {
            self.raise_game_over();
        }
        let mut shifted: Vec<Position> = Vec::with_capacity(n);
        shifted.push(new_head);
        let mut i: usize = 0;
        while i < n - 1
            invariant
                n == self.segments.len(),
                n >= 1,
                i <= n - 1,
                shifted@ == seq![new_head] + self.segments@.subrange(0, i as int),
            decreases n - 1 - i,
        {
            shifted.push(self.segments[i]);
            i += 1;
        }
        assert(self.segments@.subrange(0, n - 1) == old(self)@.body.drop_last());
        self.segments = shifted;
        self.last_tail = Some(tail);
    }

    /// Resolves eating: if the food lies under the head it is removed and
    /// a growth signal is raised.
    pub fn snake_eating(&mut self)
        requires
            old(self)@.wf(),
        ensures
            final(self)@ == old(self)@.eat(),
            final(self)@.wf(),
    {
        let head = self.segments[0];
        match self.food {
            Some(f) => {
                if f == head {
                    self.food = None;
                    self.growth = true;
                }
            },
            None => {},
        }
    }

    /// Appends a segment at `position`, behind the current tail.
    fn spawn_segment(&mut self, position: Position)
        ensures
            final(self)@ == (GameState { body: old(self)@.body.push(position), ..old(self)@ }),
    {
        self.segments.push(position);
    }

    /// Handles growth: drains a pending growth signal and, if a tail
    /// position is remembered, uses it up for a new last segment. Without
    /// a pending signal nothing happens; with a signal but no remembered
    /// position the signal is dropped.
    pub fn snake_growth(&mut self)
        requires
            old(self)@.wf(),
        ensures
            final(self)@ == old(self)@.grow(),
            final(self)@.wf(),
    {
        if self.growth {
            self.growth = false;
            match self.last_tail {
                Some(t) => {
                    self.last_tail = None;
                    self.spawn_segment(t);
                },
                None => {},
            }
        }
    }

    /// Replaces the body by the configured starting snake and points it
    /// in the configured direction.
    fn spawn_snake(&mut self)
        ensures
            final(self)@ == (GameState {
                body: old(self)@.config.start_body(),
                direction: old(self)@.config.direction,
                ..old(self)@
            }),
    {
        self.segments = Vec::new();
        self.direction = self.config.direction;
        self.spawn_segment(self.config.head);
        self.spawn_segment(self.config.tail);
    }

    /// Handles game over: a pending signal is drained by discarding the
    /// snake and the food and starting over from the initial state; without
    /// one nothing happens.
    pub fn game_over(&mut self)
        requires
            old(self)@.wf(),
        ensures
            final(self)@ == old(self)@.handle_game_over(),
            final(self)@.running(),
    {
        if self.game_over {
            self.food = None;
            self.last_tail = None;
            self.growth = false;
            self.game_over = false;
            self.spawn_snake();
        }
    }

    /// Latches the keys held at one polling step into the snake's heading.
    ///
    /// At most one direction is read, left before right before down before
    /// up; with no key held, or when the direction read would reverse the
    /// snake on the spot, the heading stays as it is.
    pub fn snake_movement_input(&mut self, input: DirectionalInput)
        requires
            old(self)@.wf(),
        ensures
            final(self)@ == old(self)@.latch(input),
            final(self)@.wf(),
            final(self)@.direction != old(self)@.direction.spec_opposite(),
            old(self)@.settled() ==> final(self)@.settled(),
    {
        self.direction = latch(self.direction, input);
    }

    /// Tries to put food on `candidate` and tells whether it did.
    ///
    /// Food appears only if there is none yet and `candidate` is a cell of
    /// the arena that no segment holds; otherwise the call changes nothing.
    pub fn place_food(&mut self, candidate: Position) -> (placed: bool)
        requires
            old(self)@.wf(),
        ensures
            final(self)@ == old(self)@.spawn_food(candidate),
            placed == old(self)@.can_spawn(candidate),
            final(self)@.wf(),
            old(self)@.settled() ==> final(self)@.settled(),
    {
        if self.food.is_none() && self.config.in_arena(candidate) && !self.occupies(candidate) {
            self.food = Some(candidate);
            true
        } else {
            false
        }
    }

    /// Draws a random cell of the arena, makes one attempt to put food
    /// there, and returns the cell drawn.
    ///
    /// The attempt is not repeated: if food exists already or the cell is
    /// under the snake, nothing changes until the next call.
    pub fn food_spawner(&mut self) -> (candidate: Position)
        requires
            old(self)@.wf(),
        ensures
            old(self)@.config.contains(candidate),
            final(self)@ == old(self)@.spawn_food(candidate),
            final(self)@.wf(),
            old(self)@.settled() ==> final(self)@.settled(),
    {
        let x = random_coordinate(self.config.width as i32);
        let y = random_coordinate(self.config.height as i32);
        let candidate = Position { x, y };
        self.place_food(candidate);
        candidate
    }

    /// Runs one movement tick in its fixed order: the move, then the
    /// reset if the move was fatal, otherwise eating and then growth.
    pub fn tick(&mut self)
        requires
            old(self)@.running(),
        ensures
            final(self)@ == old(self)@.tick(),
            final(self)@.running(),
            old(self)@.settled() ==> final(self)@.settled(),
    {
        proof {
            if self@.settled() {
                lemma_tick_keeps_settled(self@);
            }
        }
        self.snake_movement();
        if self.game_over {
            self.game_over();
        } else {
            self.snake_eating();
            self.snake_growth();
        }
    }
}

} // verus!

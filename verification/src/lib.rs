//! Rule engine of a grid-based snake game.
//!
//! The engine owns the whole simulation state in one [`Game`] value:
//! the snake's body and heading, the food, the tail position remembered
//! for growth, and the pending growth and game-over signals. Drawing and
//! key polling are left to the host, which
//!
//! - hands the keys held at each frame to [`Game::snake_movement_input`],
//! - calls [`Game::tick`] on its movement timer and
//!   [`Game::food_spawner`] on its food timer, and
//! - draws what [`Game::entities`] lists.
//!
//! A tick runs the move, then either the reset that a fatal move calls
//! for or eating followed by growth. The single steps are available as
//! [`Game::snake_movement`], [`Game::snake_eating`],
//! [`Game::snake_growth`] and [`Game::game_over`].
//!
//! Every operation is specified as a function on [`GameState`], the
//! mathematical value a game stands for, and proved to compute it. The
//! module [`laws`] proves what follows for whole games: fatal moves
//! reset, eating grows the snake where its tail was, food never appears
//! under the snake, and a game driven by its host never has two segments
//! on one cell.

pub mod config;
pub mod game;
pub mod grid;
pub mod input;
pub mod laws;
mod random;
pub mod state;

pub use config::{
    all_distinct, check_placement, inside_arena, Config, SetupError, ARENA_HEIGHT, ARENA_WIDTH,
};
pub use game::Game;
pub use grid::{Direction, Position};
pub use input::{latch, DirectionalInput};
pub use state::{Entity, EntityKind, Event, GameState};

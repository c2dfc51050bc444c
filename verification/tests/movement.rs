use snake::{Config, SetupError, Direction, DirectionalInput, Game, Position};

fn at(x: i32, y: i32) -> Position {
    Position { x, y }
}

fn arena(head: Position, tail: Position, direction: Direction) -> Config {
    Config { width: 20, height: 20, head, tail, direction }
}

fn snake_at(cells: &[(i32, i32)], direction: Direction) -> Game {
    let body: Vec<Position> = cells.iter().map(|&(x, y)| at(x, y)).collect();
    Game::with_snake(Config::standard(), body, direction).unwrap()
}

fn cells(game: &Game) -> Vec<(i32, i32)> {
    game.body().iter().map(|p| (p.x, p.y)).collect()
}

#[test]
fn step_applies_unit_offsets() {
    let p = at(5, 5);
    assert_eq!(p.step(Direction::Left), at(4, 5));
    assert_eq!(p.step(Direction::Right), at(6, 5));
    assert_eq!(p.step(Direction::Up), at(5, 6));
    assert_eq!(p.step(Direction::Down), at(5, 4));
}

#[test]
fn opposite_swaps_pairs() {
    assert_eq!(Direction::Left.opposite(), Direction::Right);
    assert_eq!(Direction::Right.opposite(), Direction::Left);
    assert_eq!(Direction::Up.opposite(), Direction::Down);
    assert_eq!(Direction::Down.opposite(), Direction::Up);
}

#[test]
fn trailing_segments_take_their_predecessors_places() {
    let mut game = snake_at(&[(5, 5), (5, 4), (5, 3)], Direction::Up);
    game.tick();
    assert_eq!(cells(&game), vec![(5, 6), (5, 5), (5, 4)]);
    assert_eq!(game.last_tail(), Some(at(5, 3)));
    assert!(!game.game_over_pending());
}

#[test]
fn movement_alone_shifts_and_remembers_tail() {
    let mut game = snake_at(&[(5, 5), (5, 4), (5, 3)], Direction::Right);
    game.snake_movement();
    assert_eq!(cells(&game), vec![(6, 5), (5, 5), (5, 4)]);
    assert_eq!(game.last_tail(), Some(at(5, 3)));
    assert!(!game.game_over_pending());
    assert!(!game.growth_pending());
}

#[test]
fn five_ticks_up_walk_to_row_fifteen() {
    let config = arena(at(10, 10), at(10, 9), Direction::Up);
    let mut game = Game::new(config).unwrap();
    for i in 1..=5 {
        game.snake_movement_input(DirectionalInput::only(Direction::Up));
        game.tick();
        assert_eq!(cells(&game), vec![(10, 10 + i), (10, 9 + i)]);
        assert!(!game.game_over_pending());
    }
    assert_eq!(game.head(), at(10, 15));
    assert_eq!(game.segment(1), Some(at(10, 14)));
    assert_eq!(game.len(), 2);
    assert_eq!(game.direction(), Direction::Up);
}

#[test]
fn crossing_the_top_wall_resets() {
    let mut game = snake_at(&[(7, 19), (7, 18), (7, 17)], Direction::Up);
    game.tick();
    assert_eq!(cells(&game), vec![(3, 3), (3, 2)]);
    assert_eq!(game.direction(), Direction::Up);
    assert_eq!(game.food(), None);
    assert_eq!(game.last_tail(), None);
    assert!(!game.game_over_pending());
    assert!(!game.growth_pending());
}

#[test]
fn crossing_the_bottom_wall_resets() {
    let mut game = snake_at(&[(7, 0), (8, 0)], Direction::Down);
    game.tick();
    assert_eq!(cells(&game), vec![(3, 3), (3, 2)]);
    assert_eq!(game.direction(), Direction::Up);
}

#[test]
fn crossing_the_left_wall_resets() {
    let mut game = snake_at(&[(0, 4), (1, 4)], Direction::Left);
    game.tick();
    assert_eq!(cells(&game), vec![(3, 3), (3, 2)]);
    assert_eq!(game.direction(), Direction::Up);
}

#[test]
fn crossing_the_right_wall_resets() {
    let mut game = snake_at(&[(19, 4), (18, 4)], Direction::Right);
    game.tick();
    assert_eq!(cells(&game), vec![(3, 3), (3, 2)]);
    assert_eq!(game.direction(), Direction::Up);
}

#[test]
fn boundary_reset_returns_to_configured_start() {
    let config = arena(at(10, 10), at(10, 9), Direction::Left);
    let body = vec![at(0, 0), at(0, 1)];
    let mut game = Game::with_snake(config, body, Direction::Down).unwrap();
    game.tick();
    assert_eq!(cells(&game), vec![(10, 10), (10, 9)]);
    assert_eq!(game.direction(), Direction::Left);
}

#[test]
fn movement_into_wall_raises_signal_and_keeps_offending_head() {
    let mut game = snake_at(&[(0, 4), (1, 4)], Direction::Left);
    game.snake_movement();
    assert!(game.game_over_pending());
    assert_eq!(cells(&game), vec![(-1, 4), (0, 4)]);
    assert_eq!(game.last_tail(), Some(at(1, 4)));
    game.game_over();
    assert!(!game.game_over_pending());
    assert_eq!(cells(&game), vec![(3, 3), (3, 2)]);
}

#[test]
fn last_cell_before_the_wall_is_safe() {
    let mut game = snake_at(&[(18, 18), (17, 18)], Direction::Right);
    game.tick();
    assert_eq!(cells(&game), vec![(19, 18), (18, 18)]);
    game.snake_movement_input(DirectionalInput::only(Direction::Up));
    game.tick();
    assert_eq!(cells(&game), vec![(19, 19), (19, 18)]);
    assert!(!game.game_over_pending());
}

#[test]
fn running_into_own_body_resets() {
    let mut game = snake_at(&[(5, 5), (6, 5), (6, 6), (5, 6), (4, 6)], Direction::Up);
    game.tick();
    assert_eq!(cells(&game), vec![(3, 3), (3, 2)]);
    assert_eq!(game.direction(), Direction::Up);
    assert_eq!(game.len(), 2);
}

#[test]
fn moving_onto_the_cell_the_tail_is_leaving_is_fatal() {
    let mut game = snake_at(&[(5, 5), (6, 5), (6, 6), (5, 6)], Direction::Up);
    game.snake_movement();
    assert!(game.game_over_pending());
    game.game_over();
    assert_eq!(cells(&game), vec![(3, 3), (3, 2)]);
}

#[test]
fn two_segment_snake_turned_round_hits_its_tail() {
    let mut game = Game::new(Config::standard()).unwrap();
    game.snake_movement_input(DirectionalInput::only(Direction::Left));
    game.snake_movement_input(DirectionalInput::only(Direction::Down));
    assert_eq!(game.direction(), Direction::Down);
    game.snake_movement();
    assert!(game.game_over_pending());
    assert_eq!(cells(&game), vec![(3, 2), (3, 3)]);
}

#[test]
fn duplicate_game_over_signals_reset_once() {
    // The move below is fatal twice over: it leaves the arena, and the
    // handler is then called twice for the one signal.
    let mut game = snake_at(&[(0, 0), (1, 0)], Direction::Left);
    game.snake_movement();
    assert!(game.game_over_pending());
    game.game_over();
    assert!(!game.game_over_pending());
    assert_eq!(cells(&game), vec![(3, 3), (3, 2)]);
    // What happens after the reset must survive the second call.
    assert!(game.place_food(at(9, 9)));
    game.snake_movement_input(DirectionalInput::only(Direction::Right));
    game.tick();
    game.game_over();
    assert_eq!(cells(&game), vec![(4, 3), (3, 3)]);
    assert_eq!(game.direction(), Direction::Right);
    assert_eq!(game.food(), Some(at(9, 9)));
    assert_eq!(game.last_tail(), Some(at(3, 2)));
}

#[test]
fn game_over_without_signal_changes_nothing() {
    let mut game = snake_at(&[(5, 5), (5, 4), (5, 3)], Direction::Right);
    assert!(game.place_food(at(1, 1)));
    game.game_over();
    assert_eq!(cells(&game), vec![(5, 5), (5, 4), (5, 3)]);
    assert_eq!(game.direction(), Direction::Right);
    assert_eq!(game.food(), Some(at(1, 1)));
}

#[test]
fn single_segment_snake_moves() {
    let mut game = snake_at(&[(4, 4)], Direction::Down);
    game.tick();
    assert_eq!(cells(&game), vec![(4, 3)]);
    assert_eq!(game.last_tail(), Some(at(4, 4)));
}

#[test]
fn new_game_is_in_its_initial_state() {
    let game = Game::new(Config::standard()).unwrap();
    assert_eq!(game.config(), Config::standard());
    assert_eq!(game.config().width, 20);
    assert_eq!(game.config().height, 20);
    assert_eq!(cells(&game), vec![(3, 3), (3, 2)]);
    assert_eq!(game.direction(), Direction::Up);
    assert_eq!(game.food(), None);
    assert_eq!(game.last_tail(), None);
    assert!(!game.growth_pending());
    assert!(!game.game_over_pending());
    assert_eq!(game.segment(2), None);
}

#[test]
fn clone_copies_the_state() {
    let mut game = snake_at(&[(5, 5), (5, 4), (5, 3)], Direction::Right);
    game.place_food(at(8, 8));
    let copy = game.clone();
    game.tick();
    assert_eq!(cells(&copy), vec![(5, 5), (5, 4), (5, 3)]);
    assert_eq!(copy.food(), Some(at(8, 8)));
    assert_eq!(copy.direction(), Direction::Right);
    assert_eq!(cells(&game), vec![(6, 5), (5, 5), (5, 4)]);
}

#[test]
fn config_errors_are_reported_in_order() {
    let good = Config::standard();
    assert_eq!(good.validate(), Ok(()));
    assert_eq!(Config { width: 0, ..good }.validate(), Err(SetupError::EmptyArena));
    assert_eq!(Config { height: 0, ..good }.validate(), Err(SetupError::EmptyArena));
    assert_eq!(
        Config { width: 0, height: u32::MAX, ..good }.validate(),
        Err(SetupError::EmptyArena)
    );
    assert_eq!(
        Config { width: 0x8000_0000, ..good }.validate(),
        Err(SetupError::ArenaTooLarge)
    );
    assert_eq!(Config { height: u32::MAX, ..good }.validate(), Err(SetupError::ArenaTooLarge));
    assert_eq!(Config { width: 0x7fff_ffff, ..good }.validate(), Ok(()));
    assert_eq!(Config { head: at(20, 3), ..good }.validate(), Err(SetupError::OutsideArena));
    assert_eq!(Config { tail: at(3, -1), ..good }.validate(), Err(SetupError::OutsideArena));
    assert_eq!(Config { tail: at(3, 3), ..good }.validate(), Err(SetupError::Overlap));
    assert_eq!(
        Config { head: at(-1, 0), tail: at(-1, 0), ..good }.validate(),
        Err(SetupError::OutsideArena)
    );
    assert_eq!(Game::new(Config { width: 0, ..good }).err(), Some(SetupError::EmptyArena));
    assert_eq!(Game::new(Config { tail: at(3, 3), ..good }).err(), Some(SetupError::Overlap));
}

#[test]
fn placement_errors_are_reported_in_order() {
    let good = Config::standard();
    let place = |config: Config, cells: &[(i32, i32)]| {
        let body: Vec<Position> = cells.iter().map(|&(x, y)| at(x, y)).collect();
        Game::with_snake(config, body, Direction::Up).err()
    };
    assert_eq!(place(good, &[(1, 1), (1, 2)]), None);
    assert_eq!(place(good, &[]), Some(SetupError::EmptyBody));
    assert_eq!(place(Config { width: 0, ..good }, &[]), Some(SetupError::EmptyArena));
    assert_eq!(place(good, &[(1, 1), (1, 20)]), Some(SetupError::OutsideArena));
    assert_eq!(place(good, &[(1, 1), (-1, 1), (1, 1)]), Some(SetupError::OutsideArena));
    assert_eq!(place(good, &[(1, 1), (1, 2), (1, 1)]), Some(SetupError::Overlap));
    assert_eq!(place(good, &[(1, 1), (1, 2), (2, 2), (2, 2)]), Some(SetupError::Overlap));
}

#[test]
fn arena_membership() {
    let config = Config::standard();
    assert!(config.in_arena(at(0, 0)));
    assert!(config.in_arena(at(19, 19)));
    assert!(!config.in_arena(at(20, 0)));
    assert!(!config.in_arena(at(0, 20)));
    assert!(!config.in_arena(at(-1, 0)));
    assert!(!config.in_arena(at(0, -1)));
}

#[test]
fn standard_arena_is_twenty_by_twenty() {
    assert_eq!(snake::ARENA_WIDTH, 20);
    assert_eq!(snake::ARENA_HEIGHT, 20);
    let config = Config::standard();
    assert_eq!((config.width, config.height), (20, 20));
    assert_eq!(config.head, at(3, 3));
    assert_eq!(config.tail, at(3, 2));
    assert_eq!(config.direction, Direction::Up);
}

#[test]
fn placement_helpers() {
    let config = Config::standard();
    assert!(snake::inside_arena(&config, &vec![]));
    assert!(snake::inside_arena(&config, &vec![at(0, 0), at(19, 19)]));
    assert!(!snake::inside_arena(&config, &vec![at(0, 0), at(19, 20)]));
    assert!(snake::all_distinct(&vec![]));
    assert!(snake::all_distinct(&vec![at(1, 1)]));
    assert!(snake::all_distinct(&vec![at(1, 1), at(1, 2), at(2, 1)]));
    assert!(!snake::all_distinct(&vec![at(1, 1), at(1, 2), at(1, 1)]));
    assert!(!snake::all_distinct(&vec![at(1, 2), at(1, 2)]));
    assert_eq!(snake::check_placement(&config, &vec![at(1, 1)]), Ok(()));
    assert_eq!(snake::check_placement(&config, &vec![]), Err(SetupError::EmptyBody));
}

#[test]
fn growth_signal_left_pending_is_applied_by_the_next_tick() {
    let mut game = snake_at(&[(5, 5), (5, 4), (5, 3)], Direction::Up);
    assert!(game.place_food(at(5, 6)));
    game.snake_movement();
    game.snake_eating();
    assert!(game.growth_pending());
    game.tick();
    assert_eq!(cells(&game), vec![(5, 7), (5, 6), (5, 5), (5, 4)]);
    assert!(!game.growth_pending());
    assert_eq!(game.last_tail(), None);
}

//! What holds of the state machine, proved over [`GameState`].

use vstd::prelude::*;
use crate::config::Config;
use crate::grid::{Direction, Position};
use crate::input::{latched, DirectionalInput};
use crate::state::{Event, GameState};

verus! {

/// A game starts settled: in the initial state of a valid configuration
/// the snake lies inside the arena on two different cells and nothing is
/// pending.
pub proof fn lemma_initial_settled(config: Config)
    requires
        config.valid(),
    ensures
        GameState::initial(config).settled(),
        GameState::initial(config).body.len() == 2,
{
    let s = GameState::initial(config);
    assert(s.body.len() == 2);
    assert(s.body[0] == config.head);
    assert(s.body[1] == config.tail);
}

/// In a running game the head's next position is computed without
/// wrapping, and leaving the arena means exactly that this position is
/// not one of its cells.
pub proof fn lemma_next_head_exact(s: GameState)
    requires
        s.running(),
    ensures
        s.next_head().x == s.head().x + s.direction.dx(),
        s.next_head().y == s.head().y + s.direction.dy(),
        s.leaves_arena() == !s.config.contains(s.next_head()),
{
    assert(s.config.contains(s.body[0]));
}

/// A move shifts the body along itself: the length stays, the head takes
/// its next position, every other segment takes the position its
/// predecessor had before the move, and the position the tail had before
/// the move is remembered.
pub proof fn lemma_advance_shifts(s: GameState)
    requires
        s.body.len() >= 1,
    ensures
        s.advance().body.len() == s.body.len(),
        s.advance().body[0] == s.next_head(),
        forall|i: int| 1 <= i < s.body.len() ==> s.advance().body[i] == s.body[i - 1],
        s.advance().last_tail == Some(s.body[s.body.len() - 1]),
        s.advance().direction == s.direction,
        s.advance().food == s.food,
{
}

/// A move out of the arena ends the game: the move raises the game-over
/// signal, and the tick puts the game back into its initial state.
pub proof fn lemma_leaving_arena_resets(s: GameState)
    requires
        s.running(),
        s.leaves_arena(),
    ensures
        s.advance().game_over,
        s.tick() == GameState::initial(s.config),
        s.tick().body == s.config.start_body(),
        s.tick().direction == s.config.direction,
{
}

/// A move onto a cell that segment `i` holds before the move ends the
/// game, whichever segment that is: the move raises the game-over signal,
/// and the tick puts the game back into its initial state.
pub proof fn lemma_self_collision_resets(s: GameState, i: int)
    requires
        s.running(),
        0 <= i < s.body.len(),
        s.body[i] == s.next_head(),
    ensures
        s.advance().game_over,
        s.tick() == GameState::initial(s.config),
        s.tick().body == s.config.start_body(),
        s.tick().direction == s.config.direction,
{
    assert(s.bites_itself());
}

/// A move that is not fatal never resets: after the tick the head is where
/// it was heading and the body is no shorter than before.
pub proof fn lemma_safe_move_keeps_going(s: GameState)
    requires
        s.running(),
        !s.collides(),
    ensures
        !s.advance().game_over,
        s.tick() == s.advance().eat().grow(),
        s.tick().body[0] == s.next_head(),
        s.tick().body.len() >= s.body.len(),
{
    lemma_advance_shifts(s);
}

/// One latch never turns the snake straight back: whatever keys are held,
/// the new heading is not the opposite of the old one.
pub proof fn lemma_latch_never_reverses(current: Direction, input: DirectionalInput)
    ensures
        latched(current, input) != current.spec_opposite(),
        input.candidate() is None ==> latched(current, input) == current,
        input.candidate() == Some(current.spec_opposite()) ==> latched(current, input) == current,
        forall|d: Direction|
            input.candidate() == Some(d) && d != current.spec_opposite() ==> latched(
                current,
                input,
            ) == d,
{
}

/// Eating grows the snake where its tail was: when a safe move brings the
/// head onto the food, the tick leaves the snake one segment longer, the
/// new last segment lying exactly where the tail lay before the move, and
/// the food gone.
pub proof fn lemma_eating_grows_at_old_tail(s: GameState)
    requires
        s.running(),
        !s.collides(),
        s.food == Some(s.next_head()),
    ensures
        s.tick().body == seq![s.next_head()] + s.body,
        s.tick().body.len() == s.body.len() + 1,
        s.tick().body.last() == s.body.last(),
        s.tick().food is None,
        !s.tick().growth,
{
    lemma_advance_shifts(s);
    assert(s.body.drop_last().push(s.body.last()) == s.body);
    assert((seq![s.next_head()] + s.body.drop_last()).push(s.body.last()) == seq![s.next_head()]
        + s.body);
}

/// Without food under the head and without a growth signal left over, a
/// safe tick is just the move: the length stays as it was.
pub proof fn lemma_plain_move_keeps_length(s: GameState)
    requires
        s.running(),
        !s.collides(),
        !s.growth,
        s.food != Some(s.next_head()),
    ensures
        s.tick() == s.advance(),
        s.tick().body.len() == s.body.len(),
{
    lemma_advance_shifts(s);
}

/// Food never appears under the snake: an attempt either changes nothing,
/// or creates food on a cell of the arena that no segment holds. While
/// food exists further attempts change nothing.
pub proof fn lemma_food_appears_off_snake(s: GameState, candidate: Position)
    ensures
        s.spawn_food(candidate) == s || (s.food is None && s.spawn_food(candidate).food == Some(
            candidate,
        ) && s.config.contains(candidate) && !s.body.contains(candidate)),
        s.spawn_food(candidate).body == s.body,
        s.food is Some ==> s.spawn_food(candidate) == s,
        s.wf() ==> s.spawn_food(candidate).wf(),
        s.settled() ==> s.spawn_food(candidate).settled(),
{
}

/// Attempts to spawn food can be repeated freely: after one attempt has
/// succeeded every further one is without effect.
pub proof fn lemma_food_spawns_once(s: GameState, first: Position, second: Position)
    requires
        s.can_spawn(first),
    ensures
        s.spawn_food(first).spawn_food(second) == s.spawn_food(first),
{
}

/// A game-over signal raised twice is one signal, and it is answered by
/// one reset: handling it a second time changes nothing.
pub proof fn lemma_reset_happens_once(s: GameState)
    ensures
        s.raise_game_over().raise_game_over() == s.raise_game_over(),
        s.raise_game_over().handle_game_over() == GameState::initial(s.config),
        s.raise_game_over().raise_game_over().handle_game_over() == s.raise_game_over().handle_game_over(),
        s.handle_game_over().handle_game_over() == s.handle_game_over(),
        !s.handle_game_over().game_over,
{
}

/// Latching keys keeps a settled game settled.
pub proof fn lemma_latch_keeps_settled(s: GameState, input: DirectionalInput)
    requires
        s.settled(),
    ensures
        s.latch(input).settled(),
{
}

/// In a settled game the handlers find nothing to do: there is no food
/// under the head, no growth to apply and no reset to perform.
pub proof fn lemma_settled_handlers_idle(s: GameState)
    requires
        s.settled(),
    ensures
        s.eat() == s,
        s.grow() == s,
        s.handle_game_over() == s,
{
    assert(s.body.contains(s.body[0]));
}

/// A tick keeps a settled game settled: afterwards the body is not
/// empty, every segment lies in the arena, no two segments share a cell,
/// and the food, if any, is not under the snake.
pub proof fn lemma_tick_keeps_settled(s: GameState)
    requires
        s.settled(),
    ensures
        s.tick().settled(),
{
    let nh = s.next_head();
    let n = s.body.len() as int;
    lemma_next_head_exact(s);
    lemma_advance_shifts(s);
    if s.collides() {
        lemma_initial_settled(s.config);
    } else {
        assert forall|i: int| 0 <= i < n implies s.body[i] != nh by {
            assert(s.body.contains(s.body[i]));
        }
        if s.food == Some(nh) {
            lemma_eating_grows_at_old_tail(s);
            let t = s.tick();
            assert forall|i: int| 0 <= i < t.body.len() implies s.config.contains(
                #[trigger] t.body[i],
            ) by {
                if i > 0 {
                    assert(t.body[i] == s.body[i - 1]);
                }
            }
            assert forall|i: int, j: int| 0 <= i < t.body.len() && 0 <= j < t.body.len() && i
                != j implies t.body[i] != t.body[j] by {
                if i > 0 {
                    assert(t.body[i] == s.body[i - 1]);
                }
                if j > 0 {
                    assert(t.body[j] == s.body[j - 1]);
                }
            }
        } else {
            lemma_plain_move_keeps_length(s);
            let t = s.tick();
            assert forall|i: int| 0 <= i < t.body.len() implies s.config.contains(
                #[trigger] t.body[i],
            ) by {
                if i > 0 {
                    assert(t.body[i] == s.body[i - 1]);
                }
            }
            assert forall|i: int, j: int| 0 <= i < t.body.len() && 0 <= j < t.body.len() && i
                != j implies t.body[i] != t.body[j] by {
                if i > 0 {
                    assert(t.body[i] == s.body[i - 1]);
                }
                if j > 0 {
                    assert(t.body[j] == s.body[j - 1]);
                }
            }
            if let Some(f) = t.food {
                if t.body.contains(f) {
                    let k = choose|k: int| 0 <= k < t.body.len() && t.body[k] == f;
                    if k > 0 {
                        assert(s.body[k - 1] == f);
                        assert(s.body.contains(f));
                    }
                }
            }
            let old_tail = s.body[n - 1];
            if t.body.contains(old_tail) {
                let k = choose|k: int| 0 <= k < t.body.len() && t.body[k] == old_tail;
                if k > 0 {
                    assert(s.body[k - 1] == old_tail);
                }
            }
        }
    }
}

/// However the host drives a game, it stays settled: after any run of
/// ticks, key polls and food draws from a settled state the body is not
/// empty and lies in the arena, no two segments share a cell, the food is
/// not under the snake, and no signal is left pending.
pub proof fn lemma_run_keeps_settled(s: GameState, events: Seq<Event>)
    requires
        s.settled(),
    ensures
        s.run(events).settled(),
        s.run(events).body.len() >= 1,
        s.run(events).body.no_duplicates(),
        s.run(events).food matches Some(f) ==> !s.run(events).body.contains(f),
        s.run(events).config == s.config,
    decreases events.len(),
{
    if events.len() > 0 {
        lemma_run_keeps_settled(s, events.drop_last());
        let before = s.run(events.drop_last());
        match events.last() {
            Event::Tick => lemma_tick_keeps_settled(before),
            Event::Keys(input) => lemma_latch_keeps_settled(before, input),
            Event::Food(candidate) => lemma_food_appears_off_snake(before, candidate),
        }
    }
}

} // verus!

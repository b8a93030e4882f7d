use vstd::prelude::*;
use crate::food::place_food;
use crate::grid::{Grid, Pos};
use crate::snake::{
    spec_collide, spec_collides, spec_eat, spec_move, Direction, SnakeModel, SnakeState,
};

verus! {

/// What a cell shows this frame: the snake (head or tail), the food, or
/// nothing. The host colours its tiles from this.
#[derive(Clone, Copy, PartialEq, Eq, Structural, Debug)]
pub enum TileColor {
    Snake,
    Food,
    Empty,
}

/// The colour of one cell: the head wins over the food, the food over the
/// tail, and an untouched cell is empty.
pub open spec fn spec_tile_color(m: SnakeModel, food: Pos, tile: Pos) -> TileColor {
    if tile == m.pos {
        TileColor::Snake
    } else if tile == food {
        TileColor::Food
    } else if m.tail.contains(tile) {
        TileColor::Snake
    } else {
        TileColor::Empty
    }
}

/// Derives the colour of one cell from the current state: a pure read, used
/// by the renderer each frame.
pub fn tile_color(snake: &SnakeState, food: Pos, tile: Pos) -> (c: TileColor)
    ensures
        c == spec_tile_color(snake@, food, tile),
{
    if tile == snake.pos {
        TileColor::Snake
    } else if tile == food {
        TileColor::Food
    } else if crate::grid::contains_pos(&snake.tail, tile) {
        TileColor::Snake
    } else {
        TileColor::Empty
    }
}

/// Checks the food under the head: on a hit the score grows by exactly 1 and
/// the food is placed anew by rejection sampling, so that its next position
/// is disjoint from the head and every tail segment; on a miss nothing
/// changes.
pub fn eat_food(snake: &mut SnakeState, food: &mut Pos, g: &Grid) -> (ate: bool)
    requires
        g.wf(),
        old(snake)@.score < u32::MAX,
        old(snake)@.tail.len() + 1 < g.width * g.height,
    ensures
        ate == (old(snake)@.pos == *old(food)),
        final(snake)@ == spec_eat(old(snake)@, *old(food)),
        ate ==> g.spec_contains(*final(food)) && *final(food) != final(snake)@.pos
            && !final(snake)@.tail.contains(*final(food)),
        !ate ==> *final(food) == *old(food),
{
    let ate = snake.eat(*food);
    if ate {
        *food = place_food(g, snake.pos, &snake.tail);
    }
    ate
}

/// The snake after one whole simulation tick: the self-collision check, then
/// input and movement, then the food check.
pub open spec fn spec_tick_model(
    m: SnakeModel,
    g: Grid,
    delta_ms: u64,
    key: Option<Direction>,
    food: Pos,
) -> SnakeModel {
    spec_eat(spec_move(spec_collide(m, g), g, delta_ms, key), food)
}

/// Whether one whole simulation tick ends with the head on the food.
pub open spec fn spec_tick_ate(
    m: SnakeModel,
    g: Grid,
    delta_ms: u64,
    key: Option<Direction>,
    food: Pos,
) -> bool {
    spec_move(spec_collide(m, g), g, delta_ms, key).pos == food
}

/// One host tick, in the fixed order that keeps the simulation
/// deterministic: run the self-collision check and reset, apply this frame's
/// input and the cadence-gated movement, then the food check with a fresh
/// placement on a hit. Death is a silent reset — there is no terminal state.
pub fn sim_tick(
    snake: &mut SnakeState,
    food: &mut Pos,
    g: &Grid,
    delta_ms: u64,
    key: Option<Direction>,
) -> (ate: bool)
    requires
        g.sim_wf(),
        old(snake)@.wf(),
        old(snake)@.in_grid(*g),
        old(snake)@.timer.elapsed_ms + delta_ms <= u64::MAX,
        old(snake)@.score < u32::MAX,
        old(snake)@.score + 1 < g.width * g.height,
    ensures
        final(snake)@ == spec_tick_model(old(snake)@, *g, delta_ms, key, *old(food)),
        ate == spec_tick_ate(old(snake)@, *g, delta_ms, key, *old(food)),
        ate ==> g.spec_contains(*final(food)) && *final(food) != final(snake)@.pos
            && !final(snake)@.tail.contains(*final(food)),
        !ate ==> *final(food) == *old(food),
        final(snake)@.wf(),
        final(snake)@.in_grid(*g),
{
    snake.check_self_collision(g);
    snake.movement_tick(g, delta_ms, key);
    eat_food(snake, food, g)
}

/// A whole simulation tick preserves the state invariant; in particular the
/// tail never grows past the score.
pub proof fn lemma_tick_preserves_wf(
    m: SnakeModel,
    g: Grid,
    delta_ms: u64,
    key: Option<Direction>,
    food: Pos,
)
    requires
        m.wf(),
        g.sim_wf(),
    ensures
        spec_tick_model(m, g, delta_ms, key, food).wf(),
        spec_tick_model(m, g, delta_ms, key, food).tail.len() <= spec_tick_model(
            m,
            g,
            delta_ms,
            key,
            food,
        ).score,
{
}

} // verus!

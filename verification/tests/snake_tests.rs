use snake_core::{Direction, Grid, MoveTimer, Pos, SnakeState, Vel};

fn grid(w: i32, h: i32) -> Grid {
    Grid::new(w, h).expect("a positive grid")
}

fn timer_at_zero() -> MoveTimer {
    MoveTimer { elapsed_ms: 0, period_ms: snake_core::snake::MOVE_PERIOD_MS }
}

#[test]
fn new_snake_sits_at_center_at_rest() {
    let g = grid(16, 9);
    let s = SnakeState::new(&g);
    assert_eq!(s.pos, Pos { x: 8, y: 4 });
    assert_eq!(s.vel, Vel { dx: 0, dy: 0 });
    assert_eq!(s.score, 1);
    assert!(s.tail.is_empty());
    assert_eq!(s.timer.elapsed_ms, 0);
    assert_eq!(s.timer.period_ms, 500);
}

#[test]
fn set_direction_zeroes_the_other_axis() {
    let g = grid(16, 9);
    let mut s = SnakeState::new(&g);
    s.set_direction(Direction::Up);
    assert_eq!(s.vel, Vel { dx: 0, dy: 1 });
    s.set_direction(Direction::Left);
    assert_eq!(s.vel, Vel { dx: -1, dy: 0 });
    s.set_direction(Direction::Down);
    assert_eq!(s.vel, Vel { dx: 0, dy: -1 });
    s.set_direction(Direction::Right);
    assert_eq!(s.vel, Vel { dx: 1, dy: 0 });
}

#[test]
fn timer_fires_at_the_period_and_keeps_the_remainder() {
    let mut t = MoveTimer::new();
    assert!(!t.advance(250));
    assert_eq!(t.elapsed_ms, 250);
    assert!(t.advance(250));
    assert_eq!(t.elapsed_ms, 0);
    assert!(t.advance(1250));
    assert_eq!(t.elapsed_ms, 250);
}

// Scenario: grid 16x9, head at the center (8,4), score 1, empty tail, at
// rest. Press "up", let the cadence fire once: the tail becomes [(8,4)] and
// stays within the score of 1, and the head moves to (8,5).
#[test]
fn first_move_up_trails_the_center_cell() {
    let g = grid(16, 9);
    let mut s = SnakeState::new(&g);
    s.movement_tick(&g, 500, Some(Direction::Up));
    assert_eq!(s.vel, Vel { dx: 0, dy: 1 });
    assert_eq!(s.pos, Pos { x: 8, y: 5 });
    assert_eq!(s.tail, vec![Pos { x: 8, y: 4 }]);
    assert_eq!(s.score, 1);
}

#[test]
fn movement_waits_for_the_cadence() {
    let g = grid(16, 9);
    let mut s = SnakeState::new(&g);
    s.movement_tick(&g, 499, Some(Direction::Up));
    assert_eq!(s.pos, Pos { x: 8, y: 4 });
    assert!(s.tail.is_empty());
    assert_eq!(s.vel, Vel { dx: 0, dy: 1 });
    s.movement_tick(&g, 1, None);
    assert_eq!(s.pos, Pos { x: 8, y: 5 });
    assert_eq!(s.tail, vec![Pos { x: 8, y: 4 }]);
}

// Wall clamp: a step that would leave the grid changes neither position nor
// velocity, and the tail stays as it was.
#[test]
fn wall_clamps_position_and_keeps_velocity() {
    let g = grid(16, 9);
    let mut s = SnakeState::new(&g);
    s.pos = Pos { x: 16, y: 5 };
    s.vel = Vel { dx: 1, dy: 0 };
    s.movement_tick(&g, 500, None);
    assert_eq!(s.pos, Pos { x: 16, y: 5 });
    assert_eq!(s.vel, Vel { dx: 1, dy: 0 });
    assert!(s.tail.is_empty());

    s.pos = Pos { x: 1, y: 1 };
    s.vel = Vel { dx: 0, dy: -1 };
    s.movement_tick(&g, 500, None);
    assert_eq!(s.pos, Pos { x: 1, y: 1 });
    assert_eq!(s.vel, Vel { dx: 0, dy: -1 });
}

#[test]
fn tail_is_a_sliding_window_capped_at_score() {
    let g = grid(16, 9);
    let mut s = SnakeState::new(&g);
    s.score = 2;
    s.set_direction(Direction::Right);
    for _ in 0..4 {
        s.movement_tick(&g, 500, None);
        assert!(s.tail.len() <= s.score as usize);
    }
    assert_eq!(s.pos, Pos { x: 12, y: 4 });
    assert_eq!(s.tail, vec![Pos { x: 10, y: 4 }, Pos { x: 11, y: 4 }]);
}

// Scenario: tail [(5,5),(6,5)], score 2, head on (6,5) — its own tail. The
// self-collision check fires: head back to the center, score 1, tail empty.
#[test]
fn self_collision_resets_to_center() {
    let g = grid(16, 9);
    let mut s = SnakeState {
        pos: Pos { x: 6, y: 5 },
        vel: Vel { dx: 1, dy: 0 },
        score: 2,
        tail: vec![Pos { x: 5, y: 5 }, Pos { x: 6, y: 5 }],
        timer: timer_at_zero(),
    };
    let died = s.check_self_collision(&g);
    assert!(died);
    assert_eq!(s.pos, Pos { x: 8, y: 4 });
    assert_eq!(s.score, 1);
    assert!(s.tail.is_empty());
    assert_eq!(s.vel, Vel { dx: 1, dy: 0 });
}

#[test]
fn a_tail_of_one_segment_never_kills() {
    let g = grid(16, 9);
    let mut s = SnakeState {
        pos: Pos { x: 5, y: 5 },
        vel: Vel { dx: 0, dy: 0 },
        score: 1,
        tail: vec![Pos { x: 5, y: 5 }],
        timer: timer_at_zero(),
    };
    let died = s.check_self_collision(&g);
    assert!(!died);
    assert_eq!(s.pos, Pos { x: 5, y: 5 });
    assert_eq!(s.score, 1);
    assert_eq!(s.tail, vec![Pos { x: 5, y: 5 }]);
}

#[test]
fn missing_the_tail_changes_nothing() {
    let g = grid(16, 9);
    let mut s = SnakeState {
        pos: Pos { x: 7, y: 5 },
        vel: Vel { dx: 1, dy: 0 },
        score: 3,
        tail: vec![Pos { x: 5, y: 5 }, Pos { x: 6, y: 5 }],
        timer: timer_at_zero(),
    };
    let died = s.check_self_collision(&g);
    assert!(!died);
    assert_eq!(s.pos, Pos { x: 7, y: 5 });
    assert_eq!(s.score, 3);
    assert_eq!(s.tail, vec![Pos { x: 5, y: 5 }, Pos { x: 6, y: 5 }]);
}

// Eating: on the food cell `eat` returns true and the score grows by exactly 1.
#[test]
fn eat_raises_the_score_by_exactly_one() {
    let g = grid(16, 9);
    let mut s = SnakeState::new(&g);
    let ate = s.eat(Pos { x: 8, y: 4 });
    assert!(ate);
    assert_eq!(s.score, 2);
    assert_eq!(s.pos, Pos { x: 8, y: 4 });

    let ate = s.eat(Pos { x: 9, y: 4 });
    assert!(!ate);
    assert_eq!(s.score, 2);
}

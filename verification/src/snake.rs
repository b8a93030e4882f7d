use vstd::prelude::*;
use crate::grid::{Grid, Pos};

verus! {

/// A head velocity: a unit step on at most one axis.
#[derive(Clone, Copy, PartialEq, Eq, Structural, Debug)]
pub struct Vel {
    pub dx: i32,
    pub dy: i32,
}

impl Vel {
    /// Exactly one axis nonzero at a time, each component a unit step; the
    /// zero velocity (the snake at rest) is also allowed.
    pub open spec fn wf(self) -> bool {
        (self.dx == 0 && (self.dy == 0 || self.dy == 1 || self.dy == -1))
            || (self.dy == 0 && (self.dx == 1 || self.dx == -1))
    }
}

/// A freshly pressed directional key, at most one per host frame.
#[derive(Clone, Copy, PartialEq, Eq, Structural, Debug)]
pub enum Direction {
    Up,
    Down,
    Left,
    Right,
}

/// The velocity a direction key sets: the pressed axis becomes a unit step
/// and the other axis is zeroed (last-pressed-direction wins). There is
/// deliberately no 180-degree-reversal guard.
pub open spec fn spec_dir_vel(d: Direction) -> Vel {
    match d {
        Direction::Up => Vel { dx: 0, dy: 1 },
        Direction::Down => Vel { dx: 0, dy: -1i32 },
        Direction::Left => Vel { dx: -1i32, dy: 0 },
        Direction::Right => Vel { dx: 1, dy: 0 },
    }
}

/// The movement-cadence timer: accumulated milliseconds against a fixed
/// period. It fires when the period elapses and keeps the remainder, so the
/// cadence repeats.
#[derive(Clone, Copy, PartialEq, Eq, Structural, Debug)]
pub struct MoveTimer {
    pub elapsed_ms: u64,
    pub period_ms: u64,
}

/// The fixed movement cadence: the head moves at most once per half second.
pub const MOVE_PERIOD_MS: u64 = 500;

impl MoveTimer {
    pub open spec fn wf(self) -> bool {
        0 < self.period_ms && self.elapsed_ms < self.period_ms
    }

    /// The accumulated time after a tick of `delta_ms`: below the period it
    /// is kept whole, from the period on the cadence fires and whole periods
    /// are discarded.
    pub open spec fn spec_advanced(self, delta_ms: u64) -> MoveTimer {
        let total = self.elapsed_ms + delta_ms;
        MoveTimer {
            elapsed_ms: if total >= self.period_ms {
                (total % (self.period_ms as int)) as u64
            } else {
                total as u64
            },
            period_ms: self.period_ms,
        }
    }

    /// Whether a tick of `delta_ms` makes the cadence fire.
    pub open spec fn spec_fires(self, delta_ms: u64) -> bool {
        self.elapsed_ms + delta_ms >= self.period_ms
    }

    pub fn new() -> (r: MoveTimer)
        ensures
            r == (MoveTimer { elapsed_ms: 0u64, period_ms: MOVE_PERIOD_MS }),
            r.wf(),
    {
        MoveTimer { elapsed_ms: 0, period_ms: MOVE_PERIOD_MS }
    }

    /// Accumulates `delta_ms` and reports whether the cadence fired.
    pub fn advance(&mut self, delta_ms: u64) -> (fired: bool)
        requires
            old(self).wf(),
            old(self).elapsed_ms + delta_ms <= u64::MAX,
        ensures
            *final(self) == old(self).spec_advanced(delta_ms),
            fired == old(self).spec_fires(delta_ms),
            final(self).wf(),
    {
        let total = self.elapsed_ms + delta_ms;
        if total >= self.period_ms {
            self.elapsed_ms = total % self.period_ms;
            true
        } else {
            self.elapsed_ms = total;
            false
        }
    }
}

/// The mathematical model of the snake: what every contract of `SnakeState`
/// speaks of.
pub ghost struct SnakeModel {
    pub pos: Pos,
    pub vel: Vel,
    pub score: int,
    pub tail: Seq<Pos>,
    pub timer: MoveTimer,
}

impl SnakeModel {
    /// The state invariant: a lawful velocity, a score of at least 1, a tail
    /// no longer than the score, and a running cadence timer.
    pub open spec fn wf(self) -> bool {
        &&& self.vel.wf()
        &&& 1 <= self.score
        &&& self.tail.len() <= self.score
        &&& self.timer.wf()
    }

    /// The head lies on the grid.
    pub open spec fn in_grid(self, g: Grid) -> bool {
        g.spec_contains(self.pos)
    }
}

/// The cell one velocity step away from `p`.
pub open spec fn spec_step(p: Pos, v: Vel) -> Pos {
    Pos { x: (p.x + v.dx) as i32, y: (p.y + v.dy) as i32 }
}

/// The velocity after this frame's input: a freshly pressed key overwrites
/// it, no key leaves it alone.
pub open spec fn spec_apply_key(v: Vel, key: Option<Direction>) -> Vel {
    match key {
        Some(d) => spec_dir_vel(d),
        None => v,
    }
}

/// The tail after a movement step: the old head cell is appended at the
/// newest end, and if the tail then exceeds the score the oldest entry is
/// dropped (a sliding window capped at `score`).
pub open spec fn spec_pushed_tail(tail: Seq<Pos>, head: Pos, score: int) -> Seq<Pos> {
    let t = tail.push(head);
    if score < t.len() {
        t.remove(0)
    } else {
        t
    }
}

/// Whether the snake has bitten itself: the tail holds the head cell and is
/// longer than one segment. A tail of exactly one segment never kills — a
/// deliberate boundary rule.
pub open spec fn spec_collides(m: SnakeModel) -> bool {
    m.tail.len() > 1 && m.tail.contains(m.pos)
}

/// The state after the self-collision check: on a collision the head returns
/// to the grid centre, the score to 1 and the tail to empty; velocity and
/// timer are kept. Otherwise nothing changes.
pub open spec fn spec_collide(m: SnakeModel, g: Grid) -> SnakeModel {
    if spec_collides(m) {
        SnakeModel { pos: g.spec_center(), score: 1, tail: Seq::empty(), ..m }
    } else {
        m
    }
}

/// The state after one movement tick: the timer always advances and the
/// input is always applied; the head moves, trailing its old cell, only when
/// the cadence fires and the next cell is on the grid. A step off the grid
/// is a no-op for position and tail — the snake waits at the wall.
pub open spec fn spec_move(m: SnakeModel, g: Grid, delta_ms: u64, key: Option<Direction>) -> SnakeModel {
    let v = spec_apply_key(m.vel, key);
    let t = m.timer.spec_advanced(delta_ms);
    let next = spec_step(m.pos, v);
    if !g.spec_contains(next) {
        SnakeModel { vel: v, timer: t, ..m }
    } else if m.timer.spec_fires(delta_ms) {
        SnakeModel { pos: next, vel: v, timer: t, tail: spec_pushed_tail(m.tail, m.pos, m.score), ..m }
    } else {
        SnakeModel { vel: v, timer: t, ..m }
    }
}

/// The state after the food check: eating the cell under the head raises the
/// score by exactly 1 and changes nothing else.
pub open spec fn spec_eat(m: SnakeModel, food: Pos) -> SnakeModel {
    if m.pos == food {
        SnakeModel { score: m.score + 1, ..m }
    } else {
        m
    }
}

/// A movement tick keeps the tail within the score: for any well-formed
/// state, after `spec_move` the tail's length is at most the score.
pub proof fn lemma_tail_capped(m: SnakeModel, g: Grid, delta_ms: u64, key: Option<Direction>)
    requires
        m.wf(),
    ensures
        spec_move(m, g, delta_ms, key).tail.len() <= spec_move(m, g, delta_ms, key).score,
{
}

/// Self-collision resets: with a tail of at least two segments holding the
/// head cell, the collision step sends the head to the grid centre, the
/// score to 1 and the tail to empty.
pub proof fn lemma_self_collision_reset(m: SnakeModel, g: Grid)
    requires
        m.tail.len() >= 2,
        m.tail.contains(m.pos),
    ensures
        spec_collide(m, g).pos == g.spec_center(),
        spec_collide(m, g).score == 1,
        spec_collide(m, g).tail == Seq::<Pos>::empty(),
{
}

/// Wall clamp: when a head step by the current velocity would leave the
/// grid, a movement tick without fresh input changes neither position nor
/// velocity nor tail nor score; only the timer advances.
pub proof fn lemma_wall_clamp(m: SnakeModel, g: Grid, delta_ms: u64)
    requires
        !g.spec_contains(spec_step(m.pos, m.vel)),
    ensures
        spec_move(m, g, delta_ms, None).pos == m.pos,
        spec_move(m, g, delta_ms, None).vel == m.vel,
        spec_move(m, g, delta_ms, None).tail == m.tail,
        spec_move(m, g, delta_ms, None).score == m.score,
{
}

/// The mutable snake entity: head position, velocity, score, tail segments
/// (oldest first) and the movement-cadence timer. The host reads the fields
/// each frame to draw; it mutates them only through the methods.
pub struct SnakeState {
    pub pos: Pos,
    pub vel: Vel,
    pub score: u32,
    pub tail: Vec<Pos>,
    pub timer: MoveTimer,
}

impl View for SnakeState {
    type V = SnakeModel;

    open spec fn view(&self) -> SnakeModel {
        SnakeModel {
            pos: self.pos,
            vel: self.vel,
            score: self.score as int,
            tail: self.tail@,
            timer: self.timer,
        }
    }
}

impl SnakeState {
    /// The snake at simulation start: at the grid centre, at rest, score 1,
    /// no tail, timer at zero.
    pub fn new(g: &Grid) -> (r: SnakeState)
        requires
            g.sim_wf(),
        ensures
            r@.pos == g.spec_center(),
            r@.vel == (Vel { dx: 0, dy: 0 }),
            r@.score == 1,
            r@.tail == Seq::<Pos>::empty(),
            r@.timer == (MoveTimer { elapsed_ms: 0u64, period_ms: MOVE_PERIOD_MS }),
            r@.wf(),
            r@.in_grid(*g),
    {
        SnakeState {
            pos: g.center(),
            vel: Vel { dx: 0, dy: 0 },
            score: 1,
            tail: Vec::new(),
            timer: MoveTimer::new(),
        }
    }

    /// Overwrites the velocity so exactly one axis is nonzero; the other
    /// axis is zeroed. Turning straight back into the neck is allowed.
    pub fn set_direction(&mut self, d: Direction)
        ensures
            final(self)@ == (SnakeModel { vel: spec_dir_vel(d), ..old(self)@ }),
    {
        match d {
            Direction::Up => {
                self.vel = Vel { dx: 0, dy: 1 };
            }
            Direction::Down => {
                self.vel = Vel { dx: 0, dy: -1 };
            }
            Direction::Left => {
                self.vel = Vel { dx: -1, dy: 0 };
            }
            Direction::Right => {
                self.vel = Vel { dx: 1, dy: 0 };
            }
        }
    }

    /// Runs the self-collision check and, on a bite, the death reset.
    /// Returns whether the snake died this tick.
    pub fn check_self_collision(&mut self, g: &Grid) -> (died: bool)
        requires
            g.sim_wf(),
        ensures
            died == spec_collides(old(self)@),
            final(self)@ == spec_collide(old(self)@, *g),
            old(self)@.wf() ==> final(self)@.wf(),
            final(self)@.in_grid(*g) <==> (if died { true } else { old(self)@.in_grid(*g) }),
    {
        if self.tail.len() <= 1 {
            return false;
        }
        if crate::grid::contains_pos(&self.tail, self.pos) {
            self.pos = g.center();
            self.score = 1;
            self.tail = Vec::new();
            proof {
                assert(self@.tail =~= Seq::<Pos>::empty());
            }
            true
        } else {
            false
        }
    }

    /// Whether the head sits on the food; if so the score grows by exactly 1
    /// and nothing else changes.
    pub fn eat(&mut self, food: Pos) -> (ate: bool)
        requires
            old(self)@.score < u32::MAX,
        ensures
            ate == (old(self)@.pos == food),
            final(self)@ == spec_eat(old(self)@, food),
    {
        if self.pos == food {
            self.score = self.score + 1;
            true
        } else {
            false
        }
    }

    /// One movement tick: advances the cadence timer by `delta_ms`, applies
    /// this frame's input, and — when the cadence fires and the next cell is
    /// on the grid — trails the head cell onto the tail (trimmed to the
    /// score) and steps the head by the velocity.
    pub fn movement_tick(&mut self, g: &Grid, delta_ms: u64, key: Option<Direction>)
        requires
            old(self)@.wf(),
            old(self)@.in_grid(*g),
            g.sim_wf(),
            old(self)@.timer.elapsed_ms + delta_ms <= u64::MAX,
        ensures
            final(self)@ == spec_move(old(self)@, *g, delta_ms, key),
            final(self)@.wf(),
            final(self)@.in_grid(*g),
    {
        let fired = self.timer.advance(delta_ms);
        match key {
            Some(d) => self.set_direction(d),
            None => {}
        }
        let next = Pos { x: self.pos.x + self.vel.dx, y: self.pos.y + self.vel.dy };
        if !g.contains(next) {
            return;
        }
        if fired {
            let head = self.pos;
            self.tail.push(head);
            if (self.score as usize) < self.tail.len() {
                self.tail.remove(0);
            }
            self.pos = next;
        }
    }
}

} // verus!

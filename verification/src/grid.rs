use vstd::prelude::*;

verus! {

/// A cell coordinate. The playing field is 1-indexed: valid cells lie in
/// `[1, width] x [1, height]`.
#[derive(Clone, Copy, PartialEq, Eq, Structural, Debug)]
pub struct Pos {
    pub x: i32,
    pub y: i32,
}

/// The fixed coordinate space of the game. Immutable; holds no game state.
#[derive(Clone, Copy, PartialEq, Eq, Structural, Debug)]
pub struct Grid {
    pub width: i32,
    pub height: i32,
}

impl Grid {
    /// A grid is well formed when both sides are positive.
    pub open spec fn wf(self) -> bool {
        0 < self.width && 0 < self.height
    }

    /// The grids the simulation itself runs on: the centre cell must lie in
    /// bounds (so sides of at least 2), and a head move of one cell must not
    /// overflow `i32`.
    pub open spec fn sim_wf(self) -> bool {
        2 <= self.width < i32::MAX && 2 <= self.height < i32::MAX
    }

    pub open spec fn spec_contains(self, p: Pos) -> bool {
        1 <= p.x <= self.width && 1 <= p.y <= self.height
    }

    /// The cell the snake starts on and returns to after a death reset.
    pub open spec fn spec_center(self) -> Pos {
        Pos { x: (self.width / 2) as i32, y: (self.height / 2) as i32 }
    }

    /// Builds a grid, rejecting a malformed one (a side of zero or less) at
    /// construction time rather than letting it surface mid-simulation.
    pub fn new(width: i32, height: i32) -> (r: Option<Grid>)
        ensures
            r is Some <==> 0 < width && 0 < height,
            r is Some ==> r->Some_0 == (Grid { width, height }),
    {
        if 0 < width && 0 < height {
            Some(Grid { width, height })
        } else {
            None
        }
    }

    /// Whether a coordinate lies within `[1, width] x [1, height]`.
    pub fn contains(&self, p: Pos) -> (r: bool)
        ensures
            r == self.spec_contains(p),
    {
        1 <= p.x && p.x <= self.width && 1 <= p.y && p.y <= self.height
    }

    pub fn center(&self) -> (r: Pos)
        requires
            self.wf(),
        ensures
            r == self.spec_center(),
    {
        Pos { x: self.width / 2, y: self.height / 2 }
    }
}

/// Linear scan for a cell in a list of cells.
pub fn contains_pos(v: &Vec<Pos>, p: Pos) -> (r: bool)
    ensures
        r == v@.contains(p),
{
    let mut i: usize = 0;
    while i < v.len()
        invariant
            i <= v.len(),
            forall|j: int| 0 <= j < i ==> v@[j] != p,
        decreases v.len() - i,
    {
        if v[i] == p {
            return true;
        }
        i += 1;
    }
    false
}

} // verus!

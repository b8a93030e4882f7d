use vstd::prelude::*;
use vstd::arithmetic::div_mod::lemma_fundamental_div_mod;
use vstd::relations::injective_on;
use vstd::seq_lib::seq_to_set_is_finite;
use vstd::set_lib::{lemma_int_range, lemma_len_subset, lemma_map_size, set_int_range};
use crate::grid::{contains_pos, Grid, Pos};
use rand::Rng;

verus! {

/// A cell the food may land on: on the grid and not under the snake.
pub open spec fn spec_free(g: Grid, head: Pos, tail: Seq<Pos>, p: Pos) -> bool {
    g.spec_contains(p) && p != head && !tail.contains(p)
}

/// How many random draws are tried before the placement falls back to an
/// exhaustive scan of the grid.
pub const RETRY_CAP: u32 = 100;

/// Relies on rand::thread_rng and rand::Rng::gen_range: a draw from the
/// thread-local generator, uniform over the range `lo..=hi`. The range must
/// not be empty (gen_range panics on one); the draw lies within it.
#[verifier::external_body]
fn rand_in_range(lo: i32, hi: i32) -> (r: i32)
    requires
        lo <= hi,
    ensures
        lo <= r <= hi,
{
    rand::thread_rng().gen_range(lo..=hi)
}

/// Draws a random cell of the grid, both axes uniform.
fn random_cell(g: &Grid) -> (r: Pos)
    requires
        g.wf(),
    ensures
        g.spec_contains(r),
{
    Pos { x: rand_in_range(1, g.width), y: rand_in_range(1, g.height) }
}

/// The grid cell with row-major index `k`: index 0 is the corner `(1, 1)`,
/// and the index walks each row before climbing to the next.
pub open spec fn cell_at(g: Grid, k: int) -> Pos {
    Pos {
        x: (k % (g.width as int) + 1) as i32,
        y: (k / (g.width as int) + 1) as i32,
    }
}

/// Every row-major index below `width * height` names a cell on the grid.
proof fn lemma_cell_at_on_grid(g: Grid, k: int)
    requires
        g.wf(),
        0 <= k < g.width * g.height,
    ensures
        0 <= k % (g.width as int) < g.width,
        0 <= k / (g.width as int) < g.height,
        g.spec_contains(cell_at(g, k)),
{
    let w = g.width as int;
    let h = g.height as int;
    assert(0 <= k % w < w);
    lemma_fundamental_div_mod(k, w);
    assert(0 <= k / w < h) by (nonlinear_arith)
        requires
            0 < w,
            0 < h,
            0 <= k < w * h,
            k == w * (k / w) + (k % w),
            0 <= k % w < w,
    ;
}

/// The pigeonhole behind food placement: a snake that is smaller than the
/// grid cannot cover it, so some row-major cell is free of it.
proof fn lemma_snake_leaves_free_cell(g: Grid, head: Pos, tail: Seq<Pos>)
    requires
        g.wf(),
        tail.len() + 1 < g.width * g.height,
    ensures
        exists|k: int|
            0 <= k < g.width * g.height && spec_free(g, head, tail, #[trigger] cell_at(g, k)),
{
    let w = g.width as int;
    let total = g.width * g.height;
    if !(exists|k: int|
        0 <= k < g.width * g.height && spec_free(g, head, tail, #[trigger] cell_at(g, k))) {
        assert forall|k: int| 0 <= k < total implies (#[trigger] cell_at(g, k) == head
            || tail.contains(cell_at(g, k))) by {
            lemma_cell_at_on_grid(g, k);
            assert(!spec_free(g, head, tail, cell_at(g, k)));
        }
        let f = |k: int| cell_at(g, k);
        let idxs = set_int_range(0, total);
        lemma_int_range(0, total);
        let cells = idxs.map(f);
        let occ = tail.to_set().insert(head);
        assert(injective_on(f, idxs)) by {
            assert forall|k1: int, k2: int|
                idxs.contains(k1) && idxs.contains(k2) && #[trigger] f(k1) == #[trigger] f(
                    k2,
                ) implies k1 == k2 by {
                lemma_cell_at_on_grid(g, k1);
                lemma_cell_at_on_grid(g, k2);
                assert(k1 % w == k2 % w && k1 / w == k2 / w);
                lemma_fundamental_div_mod(k1, w);
                lemma_fundamental_div_mod(k2, w);
            }
        }
        lemma_map_size(idxs, cells, f);
        assert(cells.subset_of(occ)) by {
            assert forall|q: Pos| cells.contains(q) implies occ.contains(q) by {
                let k = choose|k: int| idxs.contains(k) && q == f(k);
                assert(cell_at(g, k) == head || tail.contains(cell_at(g, k)));
            }
        }
        lemma_len_subset(cells, occ);
        tail.lemma_cardinality_of_set();
        seq_to_set_is_finite(tail);
        if tail.to_set().contains(head) {
            assert(occ =~= tail.to_set());
        }
    }
}

/// The fallback placement: walks the grid in row-major order and returns the
/// first cell free of the snake. A snake smaller than the grid always leaves
/// one.
fn scan_free_cell(g: &Grid, head: Pos, tail: &Vec<Pos>) -> (r: Pos)
    requires
        g.wf(),
        tail@.len() + 1 < g.width * g.height,
    ensures
        spec_free(*g, head, tail@, r),
{
    let w = g.width as u64;
    let h = g.height as u64;
    proof {
        assert((g.width as int) * (g.height as int) < u64::MAX) by (nonlinear_arith)
            requires
                0 < g.width as int <= i32::MAX,
                0 < g.height as int <= i32::MAX,
        ;
    }
    let total = w * h;
    let mut k: u64 = 0;
    while k < total
        invariant
            g.wf(),
            w == g.width as u64,
            h == g.height as u64,
            total == (g.width as int) * (g.height as int),
            k <= total,
            forall|j: int|
                0 <= j < k ==> (#[trigger] cell_at(*g, j) == head || tail@.contains(
                    cell_at(*g, j),
                )),
        decreases total - k,
    {
        proof {
            lemma_cell_at_on_grid(*g, k as int);
        }
        let x = (k % w) as i32 + 1;
        let y = (k / w) as i32 + 1;
        let cand = Pos { x, y };
        proof {
            assert(cand == cell_at(*g, k as int));
        }
        if !(cand == head) && !contains_pos(tail, cand) {
            return cand;
        }
        k = k + 1;
    }
    proof {
        lemma_snake_leaves_free_cell(*g, head, tail@);
        let j = choose|j: int|
            0 <= j < g.width * g.height && spec_free(*g, head, tail@, #[trigger] cell_at(*g, j));
        assert(cell_at(*g, j) == head || tail@.contains(cell_at(*g, j)));
    }
    head
}

/// Places the food by rejection sampling: draws random grid cells until one
/// is free of the snake — on the grid, equal neither to the head nor to any
/// tail segment. After `RETRY_CAP` rejected draws it falls back to a
/// row-major scan for a free cell, a safety cap that never fires while the
/// snake is far smaller than the grid.
pub fn place_food(g: &Grid, head: Pos, tail: &Vec<Pos>) -> (r: Pos)
    requires
        g.wf(),
        tail@.len() + 1 < g.width * g.height,
    ensures
        spec_free(*g, head, tail@, r),
{
    let mut tries: u32 = 0;
    while tries < RETRY_CAP
        invariant
            g.wf(),
        decreases RETRY_CAP - tries,
    {
        let cand = random_cell(g);
        if !(cand == head) && !contains_pos(tail, cand) {
            return cand;
        }
        tries = tries + 1;
    }
    scan_free_cell(g, head, tail)
}

} // verus!

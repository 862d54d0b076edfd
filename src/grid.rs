use vstd::arithmetic::div_mod::lemma_fundamental_div_mod_converse;
use vstd::prelude::*;

use crate::viewport::{grid_len_of, height_of, index_of, lemma_grid_len, width_of, Viewport};

verus! {

/// The evaluation grid in integer steps. Point `k` has real coordinate
/// `xs[k] / resolution − 2` and imaginary coordinate `ys[k] / resolution − 1`.
pub struct Grid {
    pub xs: Vec<usize>,
    pub ys: Vec<usize>,
}

impl Grid {
    /// Point `k` of a grid at resolution `r` is column `k / 2r`, row `k % 2r`.
    pub open spec fn describes(self, r: int) -> bool {
        &&& self.xs@.len() == grid_len_of(r)
        &&& self.ys@.len() == grid_len_of(r)
        &&& forall|k: int| 0 <= k < grid_len_of(r) ==> #[trigger] self.xs@[k] == k / height_of(r)
        &&& forall|k: int| 0 <= k < grid_len_of(r) ==> #[trigger] self.ys@[k] == k % height_of(r)
    }
}

/// Column `i`, row `j` sits at `index_of(r, i, j)` of a grid that `describes(r)`.
pub proof fn lemma_point_at_index(g: Grid, r: int, i: int, j: int)
    requires
        r >= 1,
        g.describes(r),
        0 <= i < width_of(r),
        0 <= j < height_of(r),
    ensures
        0 <= index_of(r, i, j) < grid_len_of(r),
        g.xs@[index_of(r, i, j)] == i,
        g.ys@[index_of(r, i, j)] == j,
{
    crate::viewport::lemma_index_in_grid(r, i, j);
    lemma_fundamental_div_mod_converse(index_of(r, i, j), height_of(r), i, j);
}

/// A grid is determined by its resolution: two grids that describe the same
/// resolution hold the same coordinates.
pub proof fn lemma_describes_unique(g1: Grid, g2: Grid, r: int)
    requires
        g1.describes(r),
        g2.describes(r),
    ensures
        g1.xs@ == g2.xs@,
        g1.ys@ == g2.ys@,
{
    assert(g1.xs@ =~= g2.xs@);
    assert(g1.ys@ =~= g2.ys@);
}

/// Builds the grid: columns `0 .. 3r` outer, rows `0 .. 2r` inner.
pub fn generate(v: &Viewport) -> (g: Grid)
    requires
        v.valid(),
    ensures
        g.describes(v.resolution as int),
{
    let ghost r = v.resolution as int;
    let w = v.width();
    let h = v.height();
    proof {
        lemma_grid_len(r);
    }
    let mut xs: Vec<usize> = Vec::new();
    let mut ys: Vec<usize> = Vec::new();
    let mut i: usize = 0;
    while i < w
        invariant
            w == width_of(r),
            h == height_of(r),
            r >= 1,
            w * h == grid_len_of(r),
            grid_len_of(r) <= usize::MAX,
            i <= w,
            xs@.len() == i * h,
            ys@.len() == i * h,
            forall|k: int| 0 <= k < i * h ==> #[trigger] xs@[k] as int == k / (h as int),
            forall|k: int| 0 <= k < i * h ==> #[trigger] ys@[k] as int == k % (h as int),
        decreases w - i,
    {
        let mut j: usize = 0;
        assert((i + 1) * h <= w * h) by (nonlinear_arith)
            requires
                i < w,
        ;
        while j < h
            invariant
                w == width_of(r),
                h == height_of(r),
                i < w,
                (i + 1) * h <= w * h,
                w * h <= usize::MAX,
                j <= h,
                xs@.len() == i * h + j,
                ys@.len() == i * h + j,
                forall|k: int| 0 <= k < i * h + j ==> #[trigger] xs@[k] as int == k / (h as int),
                forall|k: int| 0 <= k < i * h + j ==> #[trigger] ys@[k] as int == k % (h as int),
            decreases h - j,
        {
            proof {
                lemma_fundamental_div_mod_converse((i * h + j) as int, h as int, i as int, j as int);
            }
            xs.push(i);
            ys.push(j);
            j = j + 1;
        }
        assert(i * h + h == (i + 1) * h) by (nonlinear_arith);
        i = i + 1;
    }
    Grid { xs, ys }
}

} // verus!

use vstd::prelude::*;

use crate::error::ComputeError;

verus! {

/// Number of grid columns (real-axis steps) at resolution `r`.
pub open spec fn width_of(r: int) -> int {
    3 * r
}

/// Number of grid rows (imaginary-axis steps) at resolution `r`.
pub open spec fn height_of(r: int) -> int {
    2 * r
}

/// Number of grid points at resolution `r`.
pub open spec fn grid_len_of(r: int) -> int {
    6 * r * r
}

/// Linear position of column `i`, row `j`: ordered by the real-axis index,
/// then by the imaginary-axis index.
pub open spec fn index_of(r: int, i: int, j: int) -> int {
    i * height_of(r) + j
}

/// Whether a resolution and an iteration bound describe an evaluation that
/// can be carried out: both positive, and every grid position addressable.
pub open spec fn admits(resolution: int, max_iterations: int) -> bool {
    &&& resolution >= 1
    &&& max_iterations >= 1
    &&& grid_len_of(resolution) <= usize::MAX
}

/// The grid is `width_of(r)` columns of `height_of(r)` rows.
pub proof fn lemma_grid_len(r: int)
    requires
        r >= 0,
    ensures
        width_of(r) * height_of(r) == grid_len_of(r),
        width_of(r) <= grid_len_of(r) || r == 0,
        height_of(r) <= grid_len_of(r) || r == 0,
{
    assert(width_of(r) * height_of(r) == grid_len_of(r)) by (nonlinear_arith);
    assert(width_of(r) <= grid_len_of(r) || r == 0) by (nonlinear_arith)
        requires
            r >= 0,
    ;
    assert(height_of(r) <= grid_len_of(r) || r == 0) by (nonlinear_arith)
        requires
            r >= 0,
    ;
}

/// Every position of the grid lies in `[0, grid_len_of(r))`.
pub proof fn lemma_index_in_grid(r: int, i: int, j: int)
    requires
        r >= 1,
        0 <= i < width_of(r),
        0 <= j < height_of(r),
    ensures
        0 <= index_of(r, i, j) < grid_len_of(r),
{
    let h = height_of(r);
    assert(0 <= i * h + j < width_of(r) * h) by (nonlinear_arith)
        requires
            0 <= i < width_of(r),
            0 <= j < h,
            h >= 1,
    ;
    lemma_grid_len(r);
}

/// The evaluation domain: a resolution and an iteration bound.
#[derive(Debug, Clone, Copy, PartialEq, Eq)]
pub struct Viewport {
    pub resolution: u32,
    pub max_iterations: i32,
}

impl Viewport {
    pub open spec fn valid(self) -> bool {
        admits(self.resolution as int, self.max_iterations as int)
    }

    pub open spec fn grid_len(self) -> int {
        grid_len_of(self.resolution as int)
    }

    /// Checks the request: `ConfigurationError` unless both values are
    /// positive and the grid fits in memory addresses.
    pub fn new(resolution: u32, max_iterations: i32) -> (r: Result<Viewport, ComputeError>)
        ensures
            r is Ok <==> admits(resolution as int, max_iterations as int),
            r matches Ok(v) ==> v.resolution == resolution && v.max_iterations == max_iterations,
            r matches Err(e) ==> e is ConfigurationError,
    {
        if resolution == 0 || max_iterations < 1 {
            return Err(ComputeError::ConfigurationError);
        }
        match grid_len_checked(resolution) {
            Some(_) => Ok(Viewport { resolution, max_iterations }),
            None => Err(ComputeError::ConfigurationError),
        }
    }

    /// Number of grid points, `6·resolution²`.
    pub fn len(&self) -> (n: usize)
        requires
            self.valid(),
        ensures
            n == self.grid_len(),
    {
        match grid_len_checked(self.resolution) {
            Some(n) => n,
            None => 0,
        }
    }

    /// Number of columns, `3·resolution`.
    pub fn width(&self) -> (n: usize)
        requires
            self.valid(),
        ensures
            n == width_of(self.resolution as int),
    {
        proof {
            lemma_grid_len(self.resolution as int);
        }
        3 * (self.resolution as usize)
    }

    /// Number of rows, `2·resolution`.
    pub fn height(&self) -> (n: usize)
        requires
            self.valid(),
        ensures
            n == height_of(self.resolution as int),
    {
        proof {
            lemma_grid_len(self.resolution as int);
        }
        2 * (self.resolution as usize)
    }

    /// Position of column `i`, row `j` in the result array.
    pub fn index(&self, i: usize, j: usize) -> (k: usize)
        requires
            self.valid(),
            i < width_of(self.resolution as int),
            j < height_of(self.resolution as int),
        ensures
            k == index_of(self.resolution as int, i as int, j as int),
            k < self.grid_len(),
    {
        proof {
            lemma_index_in_grid(self.resolution as int, i as int, j as int);
            lemma_grid_len(self.resolution as int);
        }
        let h = self.height();
        i * h + j
    }
}

/// `6·r²` when it fits in a `usize`.
fn grid_len_checked(r: u32) -> (n: Option<usize>)
    ensures
        n is Some <==> grid_len_of(r as int) <= usize::MAX,
        n matches Some(n) ==> n == grid_len_of(r as int),
{
    let r = r as usize;
    match r.checked_mul(r) {
        Some(sq) => {
            let n = sq.checked_mul(6);
            assert(sq * 6 == grid_len_of(r as int)) by (nonlinear_arith)
                requires
                    sq == r * r,
            ;
            n
        },
        None => {
            assert(r * r <= grid_len_of(r as int)) by (nonlinear_arith);
            None
        },
    }
}

} // verus!

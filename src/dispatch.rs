use vstd::prelude::*;

use crate::error::ComputeError;
use crate::exchange::{is_plan, ordered, plan, wait_of, BackendKind, Command};
use crate::grid::{generate, Grid};
use crate::viewport::{admits, grid_len_of, Viewport};

verus! {

/// Whether a requested work size is acceptable for a grid of `n` points:
/// either none is given, or it is exactly `n`.
pub open spec fn work_size_fits(n: int, requested: Option<usize>) -> bool {
    match requested {
        None => true,
        Some(w) => w == n,
    }
}

/// Whether `counts` is a complete iteration array for viewport `v`: one count
/// per grid point, each in `[0, max_iterations]`.
pub open spec fn is_result(v: Viewport, counts: Seq<i32>) -> bool {
    &&& counts.len() == v.grid_len()
    &&& forall|k: int| 0 <= k < counts.len() ==> 0 <= #[trigger] counts[k] <= v.max_iterations
}

/// Whether two count arrays have the same length and differ by at most one
/// at every point.
pub open spec fn within_one(a: Seq<i32>, b: Seq<i32>) -> bool {
    &&& a.len() == b.len()
    &&& forall|k: int| 0 <= k < a.len() ==> -1 <= #[trigger] a[k] - b[k] <= 1
}

/// The work size of a grid of `n` points: `n` itself. A requested size other
/// than `n` is a `ConfigurationError`, never a truncated or padded launch.
pub fn select_work_size(n: usize, requested: Option<usize>) -> (r: Result<usize, ComputeError>)
    ensures
        r is Ok <==> work_size_fits(n as int, requested),
        r matches Ok(w) ==> w == n,
        r matches Err(e) ==> e is ConfigurationError,
        requested matches Some(w) && w < n ==> (r matches Err(e) && e is ConfigurationError),
{
    match requested {
        None => Ok(n),
        Some(w) => {
            if w == n {
                Ok(n)
            } else {
                Err(ComputeError::ConfigurationError)
            }
        },
    }
}

/// Whether a device backend's counts agree with the sequential reference's
/// within the tolerance of floating-point rounding: one iteration per point.
pub fn agrees_within_one(reference: &Vec<i32>, candidate: &Vec<i32>) -> (r: bool)
    ensures
        r == within_one(reference@, candidate@),
{
    if reference.len() != candidate.len() {
        return false;
    }
    let mut k: usize = 0;
    while k < reference.len()
        invariant
            reference@.len() == candidate@.len(),
            k <= reference@.len(),
            forall|i: int| 0 <= i < k ==> -1 <= #[trigger] reference@[i] - candidate@[i] <= 1,
        decreases reference.len() - k,
    {
        let d: i64 = reference[k] as i64 - candidate[k] as i64;
        if d < -1 || d > 1 {
            return false;
        }
        k = k + 1;
    }
    true
}

/// Whether every count lies in `[0, m]`.
fn counts_in_range(counts: &Vec<i32>, m: i32) -> (r: bool)
    ensures
        r == forall|k: int| 0 <= k < counts@.len() ==> 0 <= #[trigger] counts@[k] <= m,
{
    let mut k: usize = 0;
    while k < counts.len()
        invariant
            k <= counts@.len(),
            forall|i: int| 0 <= i < k ==> 0 <= #[trigger] counts@[i] <= m,
        decreases counts.len() - k,
    {
        if counts[k] < 0 || counts[k] > m {
            return false;
        }
        k = k + 1;
    }
    true
}

/// One evaluation in progress: its viewport, its grid, the steps that the
/// backend carries out in turn, and how far it has got.
pub struct Dispatch {
    kind: BackendKind,
    viewport: Viewport,
    grid: Grid,
    steps: Vec<Command>,
    position: usize,
    aborted: bool,
}

impl Dispatch {
    pub closed spec fn kind_spec(&self) -> BackendKind {
        self.kind
    }

    pub closed spec fn viewport_spec(&self) -> Viewport {
        self.viewport
    }

    pub closed spec fn grid_spec(&self) -> Grid {
        self.grid
    }

    pub closed spec fn steps_spec(&self) -> Seq<Command> {
        self.steps@
    }

    pub closed spec fn position_spec(&self) -> int {
        self.position as int
    }

    pub closed spec fn aborted_spec(&self) -> bool {
        self.aborted
    }

    /// The invariant of a dispatch: a valid viewport, its grid, the plan of
    /// its backend over that grid, and a position within the plan.
    pub open spec fn wf(&self) -> bool {
        &&& self.viewport_spec().valid()
        &&& self.grid_spec().describes(self.viewport_spec().resolution as int)
        &&& is_plan(self.kind_spec(), self.viewport_spec().grid_len(), self.steps_spec())
        &&& ordered(self.steps_spec())
        &&& 0 <= self.position_spec() <= self.steps_spec().len()
    }

    /// Whether every step has been carried out without failure.
    pub open spec fn completed(&self) -> bool {
        !self.aborted_spec() && self.position_spec() == self.steps_spec().len()
    }

    /// Whether a step is waiting to be carried out.
    pub open spec fn pending(&self) -> bool {
        !self.aborted_spec() && self.position_spec() < self.steps_spec().len()
    }

    /// Starts an evaluation: checks the request, builds the grid and lays out
    /// the steps for `kind`. `ConfigurationError` when the viewport is not
    /// admissible or a requested work size is not the grid length.
    pub fn start(kind: BackendKind, resolution: u32, max_iterations: i32, work_size: Option<usize>) -> (r: Result<Dispatch, ComputeError>)
        ensures
            r is Ok <==> admits(resolution as int, max_iterations as int) && work_size_fits(
                grid_len_of(resolution as int),
                work_size,
            ),
            r matches Err(e) ==> e is ConfigurationError,
            work_size matches Some(w) && w < grid_len_of(resolution as int) ==> (r matches Err(e)
                && e is ConfigurationError),
            r matches Ok(d) ==> {
                &&& d.wf()
                &&& d.kind_spec() == kind
                &&& d.viewport_spec().resolution == resolution
                &&& d.viewport_spec().max_iterations == max_iterations
                &&& d.position_spec() == 0
                &&& !d.aborted_spec()
            },
    {
        let viewport = match Viewport::new(resolution, max_iterations) {
            Ok(v) => v,
            Err(e) => {
                return Err(e);
            },
        };
        let n = match select_work_size(viewport.len(), work_size) {
            Ok(n) => n,
            Err(e) => {
                return Err(e);
            },
        };
        let grid = generate(&viewport);
        let steps = plan(kind, n);
        Ok(Dispatch { kind, viewport, grid, steps, position: 0, aborted: false })
    }

    pub fn kind(&self) -> (k: BackendKind)
        ensures
            k == self.kind_spec(),
    {
        self.kind
    }

    pub fn viewport(&self) -> (v: Viewport)
        ensures
            v == self.viewport_spec(),
    {
        self.viewport
    }

    /// The grid whose coordinates the backend writes to the device.
    pub fn grid(&self) -> (g: &Grid)
        ensures
            *g == self.grid_spec(),
    {
        &self.grid
    }

    /// Position of the step to carry out next; a step's event is named by
    /// its position.
    pub fn position(&self) -> (k: usize)
        ensures
            k == self.position_spec(),
    {
        self.position
    }

    /// The step to carry out next, if the evaluation is still running.
    pub fn current(&self) -> (c: Option<&Command>)
        requires
            self.wf(),
        ensures
            c is Some <==> self.pending(),
            c matches Some(c) ==> *c == self.steps_spec()[self.position_spec()],
            c matches Some(c) ==> forall|i: int|
                0 <= i < wait_of(*c).len() ==> #[trigger] wait_of(*c)[i] < self.position_spec(),
    {
        if self.aborted || self.position >= self.steps.len() {
            None
        } else {
            Some(&self.steps[self.position])
        }
    }

    /// Records the outcome of the current step. A success moves on to the
    /// next step; a failure ends the evaluation and is handed back, so that
    /// no later step runs and no result is accepted.
    pub fn advance(&mut self, outcome: Result<(), ComputeError>) -> (r: Result<(), ComputeError>)
        requires
            old(self).wf(),
            old(self).pending(),
        ensures
            final(self).wf(),
            r == outcome,
            final(self).kind_spec() == old(self).kind_spec(),
            final(self).viewport_spec() == old(self).viewport_spec(),
            final(self).grid_spec() == old(self).grid_spec(),
            final(self).steps_spec() == old(self).steps_spec(),
            outcome is Ok ==> final(self).position_spec() == old(self).position_spec() + 1
                && !final(self).aborted_spec(),
            outcome is Err ==> final(self).position_spec() == old(self).position_spec()
                && final(self).aborted_spec(),
    {
        if outcome.is_ok() {
            self.position = self.position + 1;
        } else {
            self.aborted = true;
        }
        outcome
    }

    /// Whether every step has been carried out without failure.
    pub fn is_complete(&self) -> (r: bool)
        requires
            self.wf(),
        ensures
            r == self.completed(),
    {
        !self.aborted && self.position == self.steps.len()
    }

    /// Accepts the counts that the awaited read delivered: they are the
    /// result when they are a complete iteration array for the viewport, and
    /// `EventWaitFailure` otherwise. No partial array is ever returned.
    pub fn finish(&self, counts: Vec<i32>) -> (r: Result<Vec<i32>, ComputeError>)
        requires
            self.wf(),
            self.completed(),
        ensures
            r is Ok <==> is_result(self.viewport_spec(), counts@),
            r matches Ok(c) ==> c@ == counts@,
            r matches Err(e) ==> e is EventWaitFailure,
            r matches Ok(c) ==> c@.len() == 6 * self.viewport_spec().resolution
                * self.viewport_spec().resolution,
            r matches Ok(c) ==> forall|k: int|
                0 <= k < c@.len() ==> 0 <= #[trigger] c@[k] <= self.viewport_spec().max_iterations,
    {
        if counts.len() != self.viewport.len() {
            return Err(ComputeError::EventWaitFailure);
        }
        if !counts_in_range(&counts, self.viewport.max_iterations) {
            return Err(ComputeError::EventWaitFailure);
        }
        Ok(counts)
    }
}

} // verus!

use vstd::prelude::*;

verus! {

/// The most tracks a matrix is divided into.
pub const MAX_TRACKS: usize = 4;

/// A sequence of `n` zero cells.
pub fn zeros(n: usize) -> (r: Vec<i32>)
    ensures
        r@ == Seq::new(n as nat, |i: int| 0i32),
{
    let mut r: Vec<i32> = Vec::new();
    let mut i: usize = 0;
    while i < n
        invariant
            i <= n,
            r@ == Seq::new(i as nat, |k: int| 0i32),
        decreases n - i,
    {
        r.push(0);
        i = i + 1;
        assert(r@ =~= Seq::new(i as nat, |k: int| 0i32));
    }
    r
}

/// The track count actually used for a requested one: at least one, at most
/// `MAX_TRACKS`, and never more than there are cells, so that no cycle is empty.
pub open spec fn fit_tracks(len: int, requested: int) -> int {
    let hi = if len < MAX_TRACKS as int { if len < 1 { 1 } else { len } } else { MAX_TRACKS as int };
    if requested < 1 {
        1
    } else if requested > hi {
        hi
    } else {
        requested
    }
}

pub fn fit_track_count(len: usize, requested: usize) -> (r: usize)
    ensures
        r as int == fit_tracks(len as int, requested as int),
        1 <= r <= MAX_TRACKS,
        len >= 1 ==> r <= len,
{
    let hi = if len < MAX_TRACKS {
        if len < 1 {
            1
        } else {
            len
        }
    } else {
        MAX_TRACKS
    };
    if requested < 1 {
        1
    } else if requested > hi {
        hi
    } else {
        requested
    }
}

/// Why a matrix replacement was refused.
#[derive(PartialEq, Eq, Structural, Clone, Copy, Debug)]
pub enum MatrixError {
    /// The new matrix does not have the length fixed at startup.
    LengthMismatch { expected: usize, found: usize },
}

/// The cyclic step matrix: binary cells, divided into equal-length tracks.
/// Its length is fixed; its content is replaced whole.
pub struct CyclicMatrix {
    pub cells: Vec<i32>,
}

impl CyclicMatrix {
    /// A matrix of `len` zero cells.
    pub fn new(len: usize) -> (r: Self)
        ensures
            r.cells@ == Seq::new(len as nat, |i: int| 0i32),
    {
        CyclicMatrix { cells: zeros(len) }
    }

    /// Replaces the content with `cells`, which must keep the length.
    pub fn set(&mut self, cells: Vec<i32>) -> (r: Result<(), MatrixError>)
        ensures
            cells.len() == old(self).cells.len() ==> r is Ok && final(self).cells@ == cells@,
            cells.len() != old(self).cells.len() ==> r == Err::<(), MatrixError>(
                MatrixError::LengthMismatch { expected: old(self).cells.len(), found: cells.len() },
            ) && final(self).cells@ == old(self).cells@,
    {
        if cells.len() == self.cells.len() {
            self.cells = cells;
            Ok(())
        } else {
            Err(MatrixError::LengthMismatch { expected: self.cells.len(), found: cells.len() })
        }
    }

    pub fn get(&self) -> (r: &Vec<i32>)
        ensures
            r@ == self.cells@,
    {
        &self.cells
    }

    pub fn len(&self) -> (r: usize)
        ensures
            r == self.cells.len(),
    {
        self.cells.len()
    }

    /// The length of one track's cycle when the matrix is divided into
    /// `tracks` tracks; any remainder at the end is unused.
    pub fn track_cycle_length(&self, tracks: usize) -> (r: usize)
        ensures
            r as int == self.cells.len() as int / fit_tracks(self.cells.len() as int, tracks as int),
            self.cells.len() >= 1 ==> r >= 1,
    {
        let t = fit_track_count(self.cells.len(), tracks);
        let len = self.cells.len();
        proof {
            if len >= 1 {
                assert(len / t >= 1) by (nonlinear_arith)
                    requires len >= t, t >= 1;
            }
        }
        len / t
    }
}

} // verus!

//! Row-major 2-D arrays of plain values.
//!
//! Every buffer of the pipeline — grayscale intensities, edge classes,
//! gradients, angles and characters — is a [`Grid`] over the matching element
//! type. A grid is exclusively owned by the stage that produced it; stages
//! consume one grid and produce a new one.

use vstd::prelude::*;

use crate::error::ConvertError;

verus! {

/// A 2-D array stored row-major as `rows * cols` elements.
pub struct Grid<T> {
    pub rows: usize,
    pub cols: usize,
    pub data: Vec<T>,
}

impl<T> Grid<T> {
    /// The backing vector holds exactly one element per cell.
    pub open spec fn wf(&self) -> bool {
        self.data.len() == self.rows * self.cols
    }

    /// Whether `(r, c)` names a cell of this grid.
    pub open spec fn in_bounds(&self, r: int, c: int) -> bool {
        0 <= r < self.rows && 0 <= c < self.cols
    }

    /// The element stored at row `r`, column `c`.
    pub open spec fn at(&self, r: int, c: int) -> T {
        self.data[r * self.cols + c]
    }

    /// Two grids have the same shape.
    pub open spec fn same_shape(&self, other: &Grid<T>) -> bool {
        self.rows == other.rows && self.cols == other.cols
    }
}

/// A row-major index lies strictly inside the flattened grid.
pub proof fn lemma_grid_index(rows: int, cols: int, r: int, c: int)
    requires
        0 <= r < rows,
        0 <= c < cols,
    ensures
        0 <= r * cols + c < rows * cols,
{
    assert(0 <= r * cols + c < rows * cols) by (nonlinear_arith)
        requires
            0 <= r < rows,
            0 <= c < cols,
    ;
}

/// Distinct cells flatten to distinct row-major indices.
pub proof fn lemma_grid_index_injective(cols: int, r1: int, c1: int, r2: int, c2: int)
    requires
        0 <= c1 < cols,
        0 <= c2 < cols,
        0 <= r1,
        0 <= r2,
        r1 * cols + c1 == r2 * cols + c2,
    ensures
        r1 == r2 && c1 == c2,
{
    assert(r1 == r2 && c1 == c2) by (nonlinear_arith)
        requires
            0 <= c1 < cols,
            0 <= c2 < cols,
            0 <= r1,
            0 <= r2,
            r1 * cols + c1 == r2 * cols + c2,
    ;
}

impl<T: Copy> Grid<T> {
    /// Reads the element at row `r`, column `c`.
    pub fn get(&self, r: usize, c: usize) -> (v: T)
        requires
            self.wf(),
            r < self.rows,
            c < self.cols,
        ensures
            v == self.at(r as int, c as int),
    {
        proof {
            lemma_grid_index(self.rows as int, self.cols as int, r as int, c as int);
        }
        self.data[r * self.cols + c]
    }

    /// Replaces the element at row `r`, column `c`, leaving every other cell
    /// unchanged.
    pub fn set_at(&mut self, r: usize, c: usize, v: T)
        requires
            old(self).wf(),
            r < old(self).rows,
            c < old(self).cols,
        ensures
            final(self).wf(),
            final(self).rows == old(self).rows,
            final(self).cols == old(self).cols,
            final(self).at(r as int, c as int) == v,
            forall|i: int, j: int|
                old(self).in_bounds(i, j) && !(i == r && j == c) ==> final(self).at(i, j) == old(
                    self,
                ).at(i, j),
            final(self).data@ == old(self).data@.update(
                (r as int) * (old(self).cols as int) + (c as int),
                v,
            ),
    {
        proof {
            lemma_grid_index(self.rows as int, self.cols as int, r as int, c as int);
        }
        let idx = r * self.cols + c;
        self.data.set(idx, v);
        proof {
            assert forall|i: int, j: int|
                old(self).in_bounds(i, j) && !(i == r && j == c) implies self.at(i, j) == old(
                self,
            ).at(i, j) by {
                lemma_grid_index(self.rows as int, self.cols as int, i, j);
                if i * self.cols + j == r * self.cols + c {
                    lemma_grid_index_injective(self.cols as int, i, j, r as int, c as int);
                }
            }
        }
    }

    /// Builds a grid whose every cell holds `v`.
    pub fn new_fill(rows: usize, cols: usize, v: T) -> (g: Grid<T>)
        requires
            rows * cols <= usize::MAX,
        ensures
            g.wf(),
            g.rows == rows,
            g.cols == cols,
            forall|i: int, j: int| g.in_bounds(i, j) ==> #[trigger] g.at(i, j) == v,
            forall|m: int| 0 <= m < g.data.len() ==> g.data[m] == v,
    {
        let n = rows * cols;
        let mut data: Vec<T> = Vec::new();
        let mut k: usize = 0;
        while k < n
            invariant
                k <= n,
                data.len() == k,
                forall|m: int| 0 <= m < k ==> data[m] == v,
            decreases n - k,
        {
            data.push(v);
            k = k + 1;
        }
        let g = Grid { rows, cols, data };
        proof {
            assert forall|i: int, j: int| g.in_bounds(i, j) implies #[trigger] g.at(i, j) == v by {
                lemma_grid_index(rows as int, cols as int, i, j);
            }
        }
        g
    }

    /// Assembles a grid from a flat row-major vector, rejecting a vector whose
    /// length disagrees with the requested shape.
    pub fn from_parts(rows: usize, cols: usize, data: Vec<T>) -> (r: Result<Grid<T>, ConvertError>)
        ensures
            match r {
                Ok(g) => {
                    &&& g.wf()
                    &&& g.rows == rows
                    &&& g.cols == cols
                    &&& g.data@ == data@
                    &&& data.len() == rows * cols
                },
                Err(e) => e == ConvertError::NdArrayShapeError && data.len() != rows * cols,
            },
    {
        match rows.checked_mul(cols) {
            Some(n) if n == data.len() => Ok(Grid { rows, cols, data }),
            _ => Err(ConvertError::NdArrayShapeError),
        }
    }
}

} // verus!

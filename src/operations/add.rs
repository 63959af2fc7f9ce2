use vstd::prelude::*;

use crate::errors::MatrixError;
use crate::matrix::Matrix;

verus! {

/// Addition of two values of one type that may fail.
pub trait Add: Sized {
    type Output;

    /// Adds `other` to `self`.
    fn add(self, other: Self) -> Result<Self::Output, MatrixError>;
}

impl<T: Copy> Matrix<T> {
    /// Adds two matrices of one shape cell by cell, with `plus` as the
    /// addition of two cells.
    ///
    /// Fails with `DimensionMismatch` unless both matrices have the same
    /// number of rows and of columns. Otherwise the result is a fresh matrix
    /// of that shape whose cell `(i, j)` is what `plus` returned for
    /// `self`'s and `other`'s cells `(i, j)`.
    pub fn add_with<F: Fn(T, T) -> T>(&self, other: &Matrix<T>, plus: F) -> (r: Result<
        Matrix<T>,
        MatrixError,
    >)
        requires
            self.wf(),
            other.wf(),
            forall|a: T, b: T| plus.requires((a, b)),
        ensures
            !self.compatible(false, other) ==> r == Err::<Matrix<T>, MatrixError>(
                MatrixError::DimensionMismatch,
            ),
            self.compatible(false, other) ==> {
                &&& r is Ok
                &&& r->Ok_0.wf()
                &&& r->Ok_0.rows == self.rows
                &&& r->Ok_0.cols == self.cols
                &&& forall|i: int, j: int|
                    0 <= i < self.rows && 0 <= j < self.cols ==> plus.ensures(
                        (self.cells()[i][j], other.cells()[i][j]),
                        #[trigger] r->Ok_0.cells()[i][j],
                    )
            },
    {
        if !self.verify(false, other) {
            return Err(MatrixError::DimensionMismatch);
        }
        let mut data: Vec<Vec<T>> = Vec::new();
        let mut i: usize = 0;
        while i < self.rows
            invariant
                self.wf(),
                other.wf(),
                self.compatible(false, other),
                forall|a: T, b: T| plus.requires((a, b)),
                i <= self.rows,
                data@.len() == i,
                forall|k: int| 0 <= k < i ==> (#[trigger] data@[k])@.len() == self.cols,
                forall|k: int, j: int|
                    0 <= k < i && 0 <= j < self.cols ==> plus.ensures(
                        (self.cells()[k][j], other.cells()[k][j]),
                        #[trigger] data@[k]@[j],
                    ),
            decreases self.rows - i,
        {
            let mut row: Vec<T> = Vec::new();
            let mut j: usize = 0;
            while j < self.cols
                invariant
                    self.wf(),
                    other.wf(),
                    self.compatible(false, other),
                    forall|a: T, b: T| plus.requires((a, b)),
                    i < self.rows,
                    j <= self.cols,
                    row@.len() == j,
                    forall|x: int|
                        0 <= x < j ==> plus.ensures(
                            (self.cells()[i as int][x], other.cells()[i as int][x]),
                            #[trigger] row@[x],
                        ),
                decreases self.cols - j,
            {
                assert(self.cells()[i as int].len() == self.cols);
                assert(other.cells()[i as int].len() == other.cols);
                let v = plus(self.data[i][j], other.data[i][j]);
                row.push(v);
                j = j + 1;
            }
            data.push(row);
            i = i + 1;
        }
        let m = Matrix { rows: self.rows, cols: self.cols, data };
        Ok(m)
    }
}

} // verus!

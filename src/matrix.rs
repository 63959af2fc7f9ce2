use vstd::prelude::*;

use crate::errors::MatrixError;

verus! {

/// A dense matrix stored row by row.
///
/// A matrix made by the builder is well formed (`wf`): both dimensions are
/// positive and `data` holds `rows` rows of `cols` cells each.
#[derive(Debug, Clone)]
pub struct Matrix<T> {
    pub rows: usize,
    pub cols: usize,
    pub data: Vec<Vec<T>>,
}

/// Staged configuration of a matrix, checked once by `done`.
///
/// Its view is `(rows, cols, data)`; a fresh builder holds `(1, 1, [])`.
#[derive(Debug, Clone)]
pub struct BuilderMatrix<T> {
    rows: usize,
    cols: usize,
    data: Vec<Vec<T>>,
}

/// The contents of a vector of rows, as a sequence of sequences.
pub open spec fn cells_of<T>(data: Seq<Vec<T>>) -> Seq<Seq<T>> {
    data.map_values(|row: Vec<T>| row@)
}

/// `d` has exactly `rows` rows of exactly `cols` cells each.
pub open spec fn has_shape<T>(d: Seq<Seq<T>>, rows: int, cols: int) -> bool {
    &&& d.len() == rows
    &&& forall|i: int| 0 <= i < d.len() ==> (#[trigger] d[i]).len() == cols
}

/// `v` is a value that `T::default()` may return.
pub open spec fn is_default<T: Default>(v: T) -> bool {
    call_ensures(T::default, (), v)
}

impl<T> Matrix<T> {
    /// The cells of the matrix, row by row.
    pub open spec fn cells(&self) -> Seq<Seq<T>> {
        cells_of(self.data@)
    }

    /// The shape invariant of a built matrix.
    pub open spec fn wf(&self) -> bool {
        &&& self.rows > 0
        &&& self.cols > 0
        &&& has_shape(self.cells(), self.rows as int, self.cols as int)
    }

    /// Whether `(row, col)` addresses a stored cell.
    pub open spec fn holds(&self, row: int, col: int) -> bool {
        &&& 0 <= row < self.rows
        &&& 0 <= col < self.cols
        &&& row < self.cells().len()
        &&& col < self.cells()[row].len()
    }

    /// The compatibility rule of `verify`.
    pub open spec fn compatible(&self, is_mult: bool, other: &Matrix<T>) -> bool {
        if is_mult {
            self.rows == other.cols
        } else {
            self.rows == other.rows && self.cols == other.cols
        }
    }

    /// A placeholder matrix that reports one row and one column but holds no
    /// data; it is not well formed. Use `builder` to make a real matrix.
    pub fn new() -> (r: Self)
        ensures
            r.rows == 1,
            r.cols == 1,
            r.data@.len() == 0,
    {
        Matrix { rows: 1, cols: 1, data: Vec::new() }
    }

    /// Starts the staged construction of a matrix.
    pub fn builder() -> (r: BuilderMatrix<T>)
        ensures
            r@ == (1usize, 1usize, Seq::<Seq<T>>::empty()),
    {
        BuilderMatrix::new()
    }

    /// Checks whether this matrix and `other` suit an operation: for
    /// multiplication (`is_mult`) this matrix's rows must equal `other`'s
    /// columns, for addition both dimensions must agree.
    pub fn verify(&self, is_mult: bool, other: &Matrix<T>) -> (r: bool)
        ensures
            r == self.compatible(is_mult, other),
    {
        if is_mult {
            self.rows == other.cols
        } else {
            self.rows == other.rows && self.cols == other.cols
        }
    }
}

/// `(a, b)` comes strictly before `(i, j)` in row-major order.
pub open spec fn before(a: int, b: int, i: int, j: int) -> bool {
    a < i || (a == i && b < j)
}

impl<T> Matrix<T> {
    /// The first cell, in row-major order, on which `matches` returns true.
    ///
    /// To look for a value, pass an equality test against it: `find(|v| *v == x)`.
    pub fn find<F: Fn(&T) -> bool>(&self, matches: F) -> (r: Option<(usize, usize)>)
        requires
            forall|v: &T| matches.requires((v,)),
        ensures
            match r {
                Some((i, j)) => {
                    &&& i < self.cells().len()
                    &&& j < self.cells()[i as int].len()
                    &&& matches.ensures((&self.cells()[i as int][j as int],), true)
                    &&& forall|a: int, b: int|
                        0 <= a <= i && 0 <= b < self.cells()[a].len() && before(
                            a,
                            b,
                            i as int,
                            j as int,
                        )
                            ==> matches.ensures((&#[trigger] self.cells()[a][b],), false)
                },
                None => forall|a: int, b: int|
                    0 <= a < self.cells().len() && 0 <= b < self.cells()[a].len()
                        ==> matches.ensures((&#[trigger] self.cells()[a][b],), false),
            },
    {
        let mut i: usize = 0;
        while i < self.data.len()
            invariant
                i <= self.data@.len(),
                forall|v: &T| matches.requires((v,)),
                forall|a: int, b: int|
                    0 <= a < i && 0 <= b < self.cells()[a].len()
                        ==> matches.ensures((&#[trigger] self.cells()[a][b],), false),
            decreases self.data@.len() - i,
        {
            let row = &self.data[i];
            let mut j: usize = 0;
            while j < row.len()
                invariant
                    i < self.data@.len(),
                    row@ == self.cells()[i as int],
                    j <= row@.len(),
                    forall|v: &T| matches.requires((v,)),
                    forall|a: int, b: int|
                        0 <= a <= i && 0 <= b < self.cells()[a].len() && before(
                            a,
                            b,
                            i as int,
                            j as int,
                        ) ==> matches.ensures((&#[trigger] self.cells()[a][b],), false),
                decreases row@.len() - j,
            {
                let found = matches(&row[j]);
                if found {
                    return Some((i, j));
                }
                proof {
                    assert forall|a: int, b: int|
                        0 <= a <= i && 0 <= b < self.cells()[a].len() && before(
                            a,
                            b,
                            i as int,
                            j + 1,
                        ) implies matches.ensures((&self.cells()[a][b],), false) by {
                        if !(a == i && b == j) {
                            assert(before(a, b, i as int, j as int));
                        }
                    }
                }
                j = j + 1;
            }
            proof {
                assert forall|a: int, b: int|
                    0 <= a < i + 1 && 0 <= b < self.cells()[a].len() implies matches.ensures(
                    (&self.cells()[a][b],),
                    false,
                ) by {
                    assert(before(a, b, i as int, j as int));
                }
            }
            i = i + 1;
        }
        None
    }
}

impl<T: Copy> Matrix<T> {
    /// The cell at `(row, col)`, or `None` where there is no such cell.
    pub fn get(&self, row: usize, col: usize) -> (r: Option<T>)
        ensures
            r == (if self.holds(row as int, col as int) {
                Some(self.cells()[row as int][col as int])
            } else {
                None
            }),
    {
        if row < self.rows && col < self.cols && row < self.data.len() && col
            < self.data[row].len() {
            Some(self.data[row][col])
        } else {
            None
        }
    }
}

/// Additive compatibility is symmetric: `a` suits `b` for addition exactly
/// when `b` suits `a`.
pub proof fn lemma_additive_compatibility_symmetric<T>(a: &Matrix<T>, b: &Matrix<T>)
    ensures
        a.compatible(false, b) == b.compatible(false, a),
{
}

impl<T> View for BuilderMatrix<T> {
    type V = (usize, usize, Seq<Seq<T>>);

    closed spec fn view(&self) -> Self::V {
        (self.rows, self.cols, cells_of(self.data@))
    }
}

impl<T> BuilderMatrix<T> {
    fn new() -> (r: Self)
        ensures
            r@ == (1usize, 1usize, Seq::<Seq<T>>::empty()),
    {
        let r = BuilderMatrix { rows: 1, cols: 1, data: Vec::new() };
        assert(cells_of(r.data@) =~= Seq::<Seq<T>>::empty());
        r
    }

    /// Sets the number of rows.
    pub fn rows(self, n: usize) -> (r: Self)
        ensures
            r@ == (n, self@.1, self@.2),
    {
        BuilderMatrix { rows: n, ..self }
    }

    /// Sets the number of columns.
    pub fn cols(self, n: usize) -> (r: Self)
        ensures
            r@ == (self@.0, n, self@.2),
    {
        BuilderMatrix { cols: n, ..self }
    }

    /// Sets the cells, row by row.
    pub fn data(self, data: Vec<Vec<T>>) -> (r: Self)
        ensures
            r@ == (self@.0, self@.1, cells_of(data@)),
    {
        BuilderMatrix { data, ..self }
    }
}

impl<T: Copy + Default> BuilderMatrix<T> {
    /// Checks the configuration and makes the matrix.
    ///
    /// Fails with `InvalidMatrixSize` where a dimension is zero. Otherwise
    /// empty data gives a `rows` x `cols` matrix whose cells all hold one
    /// value returned by `T::default()`; data of exactly the declared shape is
    /// taken as it is; any other data fails with `DataMismatch`.
    pub fn done(self) -> (r: Result<Matrix<T>, MatrixError>)
        ensures
            self@.0 == 0 || self@.1 == 0 ==> r == Err::<Matrix<T>, MatrixError>(
                MatrixError::InvalidMatrixSize,
            ),
            self@.0 > 0 && self@.1 > 0 && self@.2.len() == 0 ==> {
                &&& r is Ok
                &&& r->Ok_0.wf()
                &&& r->Ok_0.rows == self@.0
                &&& r->Ok_0.cols == self@.1
                &&& forall|i: int, j: int|
                    0 <= i < self@.0 && 0 <= j < self@.1 ==> is_default(
                        #[trigger] r->Ok_0.cells()[i][j],
                    )
            },
            self@.0 > 0 && self@.1 > 0 && self@.2.len() > 0 && !has_shape(
                self@.2,
                self@.0 as int,
                self@.1 as int,
            ) ==> r == Err::<Matrix<T>, MatrixError>(MatrixError::DataMismatch),
            self@.0 > 0 && self@.1 > 0 && self@.2.len() > 0 && has_shape(
                self@.2,
                self@.0 as int,
                self@.1 as int,
            ) ==> {
                &&& r is Ok
                &&& r->Ok_0.wf()
                &&& r->Ok_0.rows == self@.0
                &&& r->Ok_0.cols == self@.1
                &&& r->Ok_0.cells() == self@.2
            },
    {
        if self.rows == 0 || self.cols == 0 {
            return Err(MatrixError::InvalidMatrixSize);
        }
        if self.data.len() == 0 {
            let zero = T::default();
            let mut data: Vec<Vec<T>> = Vec::new();
            let mut i: usize = 0;
            while i < self.rows
                invariant
                    i <= self.rows,
                    data@.len() == i,
                    forall|k: int| 0 <= k < i ==> (#[trigger] data@[k])@ == Seq::new(self.cols as nat, |j: int| zero),
                decreases self.rows - i,
            {
                let mut row: Vec<T> = Vec::new();
                let mut j: usize = 0;
                while j < self.cols
                    invariant
                        j <= self.cols,
                        row@ == Seq::new(j as nat, |x: int| zero),
                    decreases self.cols - j,
                {
                    row.push(zero);
                    j = j + 1;
                    assert(row@ =~= Seq::new(j as nat, |x: int| zero));
                }
                data.push(row);
                i = i + 1;
            }
            let m = Matrix { rows: self.rows, cols: self.cols, data };
            assert(forall|k: int| 0 <= k < m.rows ==> (#[trigger] m.cells()[k]) == Seq::new(self.cols as nat, |j: int| zero));
            return Ok(m);
        }
        if self.data.len() != self.rows {
            assert(self@.2.len() == self.data@.len());
            return Err(MatrixError::DataMismatch);
        }
        let mut i: usize = 0;
        while i < self.data.len()
            invariant
                i <= self.data@.len(),
                self.data@.len() == self.rows,
                self.rows > 0,
                self.cols > 0,
                forall|k: int| 0 <= k < i ==> (#[trigger] self.data@[k])@.len() == self.cols,
            decreases self.data@.len() - i,
        {
            if self.data[i].len() != self.cols {
                assert(cells_of(self.data@)[i as int].len() != self.cols);
                return Err(MatrixError::DataMismatch);
            }
            i = i + 1;
        }
        let m = Matrix { rows: self.rows, cols: self.cols, data: self.data };
        assert(has_shape(m.cells(), m.rows as int, m.cols as int));
        Ok(m)
    }
}

} // verus!

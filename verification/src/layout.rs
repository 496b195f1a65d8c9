//! Matrices as the caller sees them, row by row, and the flat column-major
//! buffers that the integration routine reads.
//!
//! The entries are never computed with, only moved, so their type is a
//! parameter.

use vstd::arithmetic::div_mod::{
    lemma_fundamental_div_mod,
    lemma_fundamental_div_mod_converse,
    lemma_mod_bound,
    lemma_multiply_divide_lt,
};
use vstd::prelude::*;

verus! {

/// The number of rows of a matrix given by its rows.
pub open spec fn height<T>(rows: Seq<Seq<T>>) -> nat {
    rows.len()
}

/// The number of columns of a matrix given by its rows: the length of the
/// first row.
pub open spec fn width<T>(rows: Seq<Seq<T>>) -> nat {
    rows[0].len()
}

/// Whether `rows` holds at least one row and one column, and all its rows are
/// equally long.
pub open spec fn rectangular<T>(rows: Seq<Seq<T>>) -> bool {
    &&& height(rows) >= 1
    &&& width(rows) >= 1
    &&& forall|i: int| 0 <= i < rows.len() ==> (#[trigger] rows[i]).len() == width(rows)
}

/// The rows of `rows` one after the other.
pub open spec fn row_major<T>(rows: Seq<Seq<T>>) -> Seq<T> {
    Seq::new(
        height(rows) * width(rows),
        |k: int| rows[k / (width(rows) as int)][k % (width(rows) as int)],
    )
}

/// The matrix whose rows are the columns of `rows`.
pub open spec fn transpose<T>(rows: Seq<Seq<T>>) -> Seq<Seq<T>> {
    Seq::new(width(rows), |j: int| Seq::new(height(rows), |i: int| rows[i][j]))
}

/// The columns of `rows` one after the other: the transpose, flattened.
pub open spec fn column_major<T>(rows: Seq<Seq<T>>) -> Seq<T> {
    row_major(transpose(rows))
}

/// The `nrows` rows of `ncols` entries each that the flat buffer `data`
/// holds one after the other.
pub open spec fn unflatten<T>(data: Seq<T>, nrows: nat, ncols: nat) -> Seq<Seq<T>> {
    Seq::new(nrows, |i: int| Seq::new(ncols, |j: int| data[i * ncols + j]))
}

/// The views of the rows of a nested vector.
pub open spec fn rows_of<T>(rows: Seq<Vec<T>>) -> Seq<Seq<T>> {
    rows.map_values(|r: Vec<T>| r@)
}

/// The entry `j` of the stretch `i` of a flat buffer made of `count`
/// stretches of `stride` entries lies inside the buffer.
proof fn lemma_flat_index_in_bounds(i: int, j: int, count: int, stride: int)
    requires
        0 <= i < count,
        0 <= j < stride,
    ensures
        0 <= i * stride + j < count * stride,
{
    assert(i * stride + j < count * stride) by (nonlinear_arith)
        requires
            0 <= i < count,
            0 <= j < stride,
    ;
    assert(0 <= i * stride) by (nonlinear_arith)
        requires
            0 <= i,
            0 <= stride,
    ;
}

/// An index into a flat buffer made of `count` stretches of `stride` entries
/// splits into a stretch and an entry of it.
proof fn lemma_flat_index_split(k: int, count: int, stride: int)
    requires
        0 <= k < count * stride,
        0 < stride,
    ensures
        0 <= k / stride < count,
        0 <= k % stride < stride,
        k == (k / stride) * stride + k % stride,
{
    lemma_mod_bound(k, stride);
    lemma_fundamental_div_mod(k, stride);
    assert(count * stride == stride * count) by (nonlinear_arith);
    lemma_multiply_divide_lt(k, stride, count);
    assert(0 <= k / stride) by (nonlinear_arith)
        requires
            0 <= k,
            0 < stride,
    ;
    assert(stride * (k / stride) == (k / stride) * stride) by (nonlinear_arith);
}

/// The column-major buffer holds entry `(i, j)` at index `j * height + i`.
pub proof fn lemma_column_major_index<T>(rows: Seq<Seq<T>>, i: int, j: int)
    requires
        rectangular(rows),
        0 <= i < height(rows),
        0 <= j < width(rows),
    ensures
        column_major(rows).len() == height(rows) * width(rows),
        0 <= j * height(rows) + i < column_major(rows).len(),
        column_major(rows)[j * height(rows) + i] == rows[i][j],
{
    let nrows = height(rows) as int;
    lemma_flat_index_in_bounds(j, i, width(rows) as int, nrows);
    lemma_fundamental_div_mod_converse(j * nrows + i, nrows, j, i);
}

/// Of a square matrix of size `n`, the column-major buffer holds at index
/// `i * n + j` the entry `(j, i)`: read row by row, it is the transpose.
pub proof fn lemma_column_major_square<T>(rows: Seq<Seq<T>>, i: int, j: int)
    requires
        rectangular(rows),
        width(rows) == height(rows),
        0 <= i < height(rows),
        0 <= j < height(rows),
    ensures
        column_major(rows).len() == height(rows) * height(rows),
        0 <= i * height(rows) + j < column_major(rows).len(),
        column_major(rows)[i * height(rows) + j] == rows[j][i],
{
    lemma_column_major_index(rows, j, i);
}

/// Read row by row as a matrix with the two dimensions exchanged, the
/// column-major buffer is the transpose.
pub proof fn lemma_column_major_is_transpose<T>(rows: Seq<Seq<T>>)
    requires
        rectangular(rows),
    ensures
        unflatten(column_major(rows), width(rows), height(rows)) == transpose(rows),
        rectangular(transpose(rows)),
        height(transpose(rows)) == width(rows),
        width(transpose(rows)) == height(rows),
{
    let back = unflatten(column_major(rows), width(rows), height(rows));
    let t = transpose(rows);
    assert forall|j: int| 0 <= j < width(rows) implies #[trigger] back[j] == t[j] by {
        assert forall|i: int| 0 <= i < height(rows) implies back[j][i] == t[j][i] by {
            lemma_column_major_index(rows, i, j);
        }
    }
}

/// A matrix with at least one row and one column, stored row by row.
#[derive(Debug)]
pub struct Matrix<T> {
    rows: usize,
    cols: usize,
    data: Vec<T>,
}

impl<T> View for Matrix<T> {
    type V = Seq<Seq<T>>;

    /// The rows of the matrix.
    closed spec fn view(&self) -> Seq<Seq<T>> {
        unflatten(self.data@, self.rows as nat, self.cols as nat)
    }
}

impl<T> Matrix<T> {
    #[verifier::type_invariant]
    spec fn well_formed(&self) -> bool {
        &&& self.rows >= 1
        &&& self.cols >= 1
        &&& self.data@.len() == self.rows * self.cols
    }

    /// The number of rows.
    pub open spec fn nrows(&self) -> nat {
        height(self@)
    }

    /// The number of columns.
    pub open spec fn ncols(&self) -> nat {
        width(self@)
    }

    /// The matrix of `rows` rows and `cols` columns that `data` holds row by
    /// row; `None` where a dimension is zero or `data` has another number of
    /// entries than `rows * cols`.
    pub fn from_row_major(rows: usize, cols: usize, data: Vec<T>) -> (m: Option<Matrix<T>>)
        ensures
            m is Some <==> rows >= 1 && cols >= 1 && data@.len() == rows * cols,
            m matches Some(mat) ==> mat@ == unflatten(data@, rows as nat, cols as nat)
                && rectangular(mat@) && mat.nrows() == rows && mat.ncols() == cols,
    {
        if rows == 0 || cols == 0 {
            return None;
        }
        let len = data.len();
        match rows.checked_mul(cols) {
            Some(n) => {
                if n != len {
                    return None;
                }
            },
            None => {
                return None;
            },
        }
        Some(Matrix { rows, cols, data })
    }

    /// The matrix with the given rows; `None` where there is no row, a row is
    /// empty, or two rows differ in length.
    pub fn from_rows(rows: &Vec<Vec<T>>) -> (m: Option<Matrix<T>>) where T: Copy
        ensures
            m is Some <==> rectangular(rows_of(rows@)),
            m matches Some(mat) ==> mat@ == rows_of(rows@),
    {
        let nrows = rows.len();
        if nrows == 0 {
            return None;
        }
        let ncols = rows[0].len();
        if ncols == 0 {
            return None;
        }
        let ghost src = rows_of(rows@);
        let mut data: Vec<T> = Vec::new();
        let mut i: usize = 0;
        while i < nrows
            invariant
                nrows == rows@.len(),
                ncols == rows@[0]@.len(),
                ncols >= 1,
                src == rows_of(rows@),
                i <= nrows,
                data@.len() == i * ncols,
                forall|r: int| 0 <= r < i ==> (#[trigger] src[r]).len() == ncols,
                forall|k: int|
                    0 <= k < data@.len() ==> #[trigger] data@[k] == src[k / (ncols as int)][k % (
                    ncols as int)],
            decreases nrows - i,
        {
            let row = &rows[i];
            if row.len() != ncols {
                assert(src[i as int].len() != src[0].len());
                return None;
            }
            let mut j: usize = 0;
            while j < ncols
                invariant
                    i < nrows,
                    ncols >= 1,
                    row@.len() == ncols,
                    src[i as int] == row@,
                    j <= ncols,
                    data@.len() == i * ncols + j,
                    forall|k: int|
                        0 <= k < data@.len() ==> #[trigger] data@[k] == src[k / (ncols as int)][k
                            % (ncols as int)],
                decreases ncols - j,
            {
                proof {
                    lemma_fundamental_div_mod_converse(
                        i * ncols + j,
                        ncols as int,
                        i as int,
                        j as int,
                    );
                }
                data.push(row[j]);
                j += 1;
            }
            proof {
                assert((i + 1) * ncols == i * ncols + ncols) by (nonlinear_arith);
            }
            i += 1;
        }
        let m = Matrix { rows: nrows, cols: ncols, data };
        proof {
            assert forall|r: int| 0 <= r < nrows implies #[trigger] m@[r] == src[r] by {
                assert forall|c: int| 0 <= c < ncols implies m@[r][c] == src[r][c] by {
                    lemma_flat_index_in_bounds(r, c, nrows as int, ncols as int);
                    lemma_fundamental_div_mod_converse(r * ncols + c, ncols as int, r, c);
                }
            }
        }
        Some(m)
    }

    /// The number of rows, which is at least one.
    pub fn rows(&self) -> (r: usize)
        ensures
            r == self.nrows(),
            r >= 1,
            rectangular(self@),
    {
        proof {
            use_type_invariant(self);
            self.lemma_view_shape();
        }
        self.rows
    }

    /// The number of columns, which is at least one.
    pub fn cols(&self) -> (c: usize)
        ensures
            c == self.ncols(),
            c >= 1,
            rectangular(self@),
    {
        proof {
            use_type_invariant(self);
            self.lemma_view_shape();
        }
        self.cols
    }

    /// The entry in row `i` and column `j`; `None` outside the matrix.
    pub fn get(&self, i: usize, j: usize) -> (entry: Option<T>) where T: Copy
        ensures
            entry is Some <==> i < self.nrows() && j < self.ncols(),
            entry matches Some(e) ==> e == self@[i as int][j as int],
    {
        proof {
            use_type_invariant(self);
            self.lemma_view_shape();
        }
        let len = self.data.len();
        if i < self.rows && j < self.cols {
            proof {
                lemma_flat_index_in_bounds(i as int, j as int, self.rows as int, self.cols as int);
            }
            Some(self.data[i * self.cols + j])
        } else {
            None
        }
    }

    /// The entries column by column: those of column 0 first, then those of
    /// column 1, and so on, the flat layout that the integration routine reads.
    pub fn to_column_major(&self) -> (out: Vec<T>) where T: Copy
        ensures
            out@ == column_major(self@),
            out@.len() == self.nrows() * self.ncols(),
            forall|i: int, j: int|
                0 <= i < self.nrows() && 0 <= j < self.ncols() ==> out@[j * self.nrows() + i]
                    == #[trigger] self@[i][j],
    {
        proof {
            use_type_invariant(self);
            self.lemma_view_shape();
        }
        let nrows = self.rows;
        let ncols = self.cols;
        let len = self.data.len();
        let mut out: Vec<T> = Vec::with_capacity(len);
        let mut j: usize = 0;
        while j < ncols
            invariant
                nrows == self.rows,
                ncols == self.cols,
                nrows >= 1,
                len == nrows * ncols,
                self.data@.len() == len,
                j <= ncols,
                out@.len() == j * nrows,
                forall|k: int|
                    0 <= k < out@.len() ==> #[trigger] out@[k] == self.data@[(k % (nrows as int))
                        * ncols + k / (nrows as int)],
            decreases ncols - j,
        {
            let mut i: usize = 0;
            while i < nrows
                invariant
                    nrows == self.rows,
                    ncols == self.cols,
                    nrows >= 1,
                    len == nrows * ncols,
                    self.data@.len() == len,
                    j < ncols,
                    i <= nrows,
                    out@.len() == j * nrows + i,
                    forall|k: int|
                        0 <= k < out@.len() ==> #[trigger] out@[k] == self.data@[(k % (
                        nrows as int)) * ncols + k / (nrows as int)],
                decreases nrows - i,
            {
                proof {
                    lemma_flat_index_in_bounds(i as int, j as int, nrows as int, ncols as int);
                    lemma_fundamental_div_mod_converse(
                        j * nrows + i,
                        nrows as int,
                        j as int,
                        i as int,
                    );
                }
                out.push(self.data[i * ncols + j]);
                i += 1;
            }
            proof {
                assert((j + 1) * nrows == j * nrows + nrows) by (nonlinear_arith);
            }
            j += 1;
        }
        proof {
            assert(ncols * nrows == nrows * ncols) by (nonlinear_arith);
            assert forall|k: int| 0 <= k < out@.len() implies out@[k] == column_major(self@)[k] by {
                lemma_flat_index_split(k, ncols as int, nrows as int);
                lemma_flat_index_in_bounds(
                    k % (nrows as int),
                    k / (nrows as int),
                    nrows as int,
                    ncols as int,
                );
            }
            assert forall|i: int, j: int| 0 <= i < self.nrows() && 0 <= j < self.ncols() implies out@[j
                * self.nrows() + i] == #[trigger] self@[i][j] by {
                lemma_column_major_index(self@, i, j);
            }
        }
        out
    }

    /// The view has as many rows as the matrix and each as many entries as the
    /// matrix has columns.
    proof fn lemma_view_shape(&self)
        requires
            self.well_formed(),
        ensures
            rectangular(self@),
            self.nrows() == self.rows,
            self.ncols() == self.cols,
            forall|i: int, j: int|
                0 <= i < self.rows && 0 <= j < self.cols ==> self@[i][j] == self.data@[i
                    * self.cols + j],
    {
    }
}

} // verus!

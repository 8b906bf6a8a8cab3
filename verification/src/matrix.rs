//! Dense matrices of scalars in column-major order.

use vstd::prelude::*;
use crate::error::check_dimension;
use crate::error::dimension_check;
use crate::error::EsnError;
use crate::scalar::Scalar;

verus! {

/// What a [`Matrix`] stands for: a shape and the entries, column after column.
pub struct MatrixView {
    pub rows: nat,
    pub cols: nat,
    pub entries: Seq<Scalar>,
}

impl MatrixView {
    /// There is one entry for each position.
    pub open spec fn wf(self) -> bool {
        self.entries.len() == self.rows * self.cols
    }

    /// Whether `(i, j)` is a position of the matrix.
    pub open spec fn in_range(self, i: int, j: int) -> bool {
        0 <= i < self.rows && 0 <= j < self.cols
    }

    /// Where the entry of row `i` and column `j` lies among the entries.
    pub open spec fn offset(self, i: int, j: int) -> int {
        j * self.rows + i
    }

    /// The entry of row `i` and column `j`.
    pub open spec fn at(self, i: int, j: int) -> Scalar {
        self.entries[self.offset(i, j)]
    }

    /// Whether every entry is a finite number.
    pub open spec fn finite(self) -> bool {
        forall|k: int| 0 <= k < self.entries.len() ==> (#[trigger] self.entries[k]).finite()
    }

    /// Whether the matrix has the given shape.
    pub open spec fn has_shape(self, rows: nat, cols: nat) -> bool {
        self.rows == rows && self.cols == cols
    }

    /// The matrix of the given shape whose entry at `(i, j)` is `f(i, j)`.
    pub open spec fn from_fn(rows: nat, cols: nat, f: spec_fn(int, int) -> Scalar) -> MatrixView {
        MatrixView {
            rows,
            cols,
            entries: Seq::new(rows * cols, |k: int| f(k % (rows as int), k / (rows as int))),
        }
    }

    /// The matrix of the given shape whose every entry is `value`.
    pub open spec fn filled(rows: nat, cols: nat, value: Scalar) -> MatrixView {
        MatrixView::from_fn(rows, cols, |i: int, j: int| value)
    }

    /// The square matrix with `value` on the diagonal and positive zero elsewhere.
    pub open spec fn diagonal(n: nat, value: Scalar) -> MatrixView {
        MatrixView::from_fn(
            n,
            n,
            |i: int, j: int|
                if i == j {
                    value
                } else {
                    Scalar { bits: 0 }
                },
        )
    }

    /// Every position of a well-formed matrix has its own place among the entries.
    pub proof fn offset_in_bounds(self, i: int, j: int)
        requires
            self.wf(),
            self.in_range(i, j),
        ensures
            0 <= j * self.rows <= self.offset(i, j) < self.entries.len(),
            self.offset(i, j) / (self.rows as int) == j,
            self.offset(i, j) % (self.rows as int) == i,
    {
        let r = self.rows as int;
        assert(0 <= j * r <= j * r + i < r * (self.cols as int)) by (nonlinear_arith)
            requires
                0 <= i < r,
                0 <= j < self.cols as int,
        ;
        assert((j * r + i) / r == j && (j * r + i) % r == i) by (nonlinear_arith)
            requires
                0 <= i < r,
                0 <= j,
        ;
    }

    /// Every place among the entries of a well-formed matrix belongs to one position.
    pub proof fn place_has_position(self, k: int)
        requires
            self.wf(),
            0 <= k < self.entries.len(),
        ensures
            self.rows > 0,
            self.in_range(k % (self.rows as int), k / (self.rows as int)),
            self.offset(k % (self.rows as int), k / (self.rows as int)) == k,
    {
        let r = self.rows as int;
        let c = self.cols as int;
        assert(r > 0) by (nonlinear_arith)
            requires
                0 <= k < r * c,
                r >= 0,
        ;
        vstd::arithmetic::div_mod::lemma_fundamental_div_mod(k, r);
        assert(0 <= k / r < c && (k / r) * r == r * (k / r)) by (nonlinear_arith)
            requires
                0 <= k < r * c,
                r > 0,
                k == r * (k / r) + k % r,
                0 <= k % r < r,
        ;
    }

    /// A matrix built from a function of the position holds, at each position,
    /// what the function gives there.
    pub proof fn from_fn_at(rows: nat, cols: nat, f: spec_fn(int, int) -> Scalar, i: int, j: int)
        requires
            0 <= i < rows,
            0 <= j < cols,
        ensures
            MatrixView::from_fn(rows, cols, f).wf(),
            MatrixView::from_fn(rows, cols, f).at(i, j) == f(i, j),
    {
        let m = MatrixView::from_fn(rows, cols, f);
        m.offset_in_bounds(i, j);
    }

    /// A filled matrix holds the value at every position, and a diagonal
    /// matrix holds it on the diagonal and positive zero elsewhere.
    pub proof fn filled_and_diagonal_at(rows: nat, cols: nat, value: Scalar, i: int, j: int)
        requires
            0 <= i < rows,
            0 <= j < cols,
        ensures
            MatrixView::filled(rows, cols, value).wf(),
            MatrixView::filled(rows, cols, value).at(i, j) == value,
            rows == cols ==> MatrixView::diagonal(rows, value).wf(),
            rows == cols && i == j ==> MatrixView::diagonal(rows, value).at(i, j) == value,
            rows == cols && i != j ==> MatrixView::diagonal(rows, value).at(i, j) == (Scalar {
                bits: 0,
            }),
    {
        MatrixView::from_fn_at(rows, cols, |i: int, j: int| value, i, j);
        if rows == cols {
            MatrixView::from_fn_at(
                rows,
                rows,
                |i: int, j: int|
                    if i == j {
                        value
                    } else {
                        Scalar { bits: 0 }
                    },
                i,
                j,
            );
        }
    }

    /// Two well-formed matrices of one shape that agree at every position are equal.
    pub proof fn equal_by_positions(self, other: MatrixView)
        requires
            self.wf(),
            other.wf(),
            self.rows == other.rows,
            self.cols == other.cols,
            forall|i: int, j: int| self.in_range(i, j) ==> self.at(i, j) == other.at(i, j),
        ensures
            self == other,
    {
        assert forall|k: int| 0 <= k < self.entries.len() implies self.entries[k]
            == other.entries[k] by {
            self.place_has_position(k);
            let i = k % (self.rows as int);
            let j = k / (self.rows as int);
            assert(self.at(i, j) == other.at(i, j));
        }
        assert(self.entries =~= other.entries);
    }
}

/// A dense matrix of scalars.
#[derive(Debug)]
pub struct Matrix {
    nrows: usize,
    ncols: usize,
    data: Vec<Scalar>,
}

impl View for Matrix {
    type V = MatrixView;

    closed spec fn view(&self) -> MatrixView {
        MatrixView { rows: self.nrows as nat, cols: self.ncols as nat, entries: self.data@ }
    }
}

/// A dimension given in 64 bits, as the machine can address it: itself where
/// it fits a `usize`, and `InvalidParameter` where it does not.
pub open spec fn machine_dimension(n: u64) -> Result<usize, EsnError> {
    if n <= usize::MAX {
        Ok(n as usize)
    } else {
        Err(EsnError::InvalidParameter)
    }
}

/// Computes [`machine_dimension`].
pub fn dimension(n: u64) -> (r: Result<usize, EsnError>)
    ensures
        r == machine_dimension(n),
{
    if n <= usize::MAX as u64 {
        Ok(n as usize)
    } else {
        Err(EsnError::InvalidParameter)
    }
}

/// The outcome of sizing a matrix: the number of entries, or the reason why
/// the shape cannot be stored.
pub open spec fn entry_count(nrows: usize, ncols: usize) -> Result<usize, EsnError> {
    if nrows * ncols <= usize::MAX {
        Ok((nrows * ncols) as usize)
    } else {
        Err(EsnError::InvalidParameter)
    }
}

/// Computes [`entry_count`].
pub fn count_entries(nrows: usize, ncols: usize) -> (r: Result<usize, EsnError>)
    ensures
        r == entry_count(nrows, ncols),
{
    match nrows.checked_mul(ncols) {
        Some(size) => Ok(size),
        None => Err(EsnError::InvalidParameter),
    }
}

impl Matrix {
    #[verifier::type_invariant]
    closed spec fn inv(self) -> bool {
        self.data@.len() == self.nrows * self.ncols
    }

    /// Builds a matrix from its entries in column-major order.
    ///
    /// Fails with `InvalidParameter` when the shape has more positions than a
    /// `usize` can count, and with `DimensionMismatch` when `data` does not
    /// hold exactly one scalar for each position.
    pub fn from_vec(nrows: usize, ncols: usize, data: Vec<Scalar>) -> (r: Result<Matrix, EsnError>)
        ensures
            match entry_count(nrows, ncols) {
                Err(e) => r == Err::<Matrix, EsnError>(e),
                Ok(size) => match dimension_check(size as nat, data@.len()) {
                    Err(e) => r == Err::<Matrix, EsnError>(e),
                    Ok(_) => r is Ok && r->Ok_0@ == (MatrixView {
                        rows: nrows as nat,
                        cols: ncols as nat,
                        entries: data@,
                    }),
                },
            },
            r is Ok ==> r->Ok_0@.wf(),
    {
        let size = count_entries(nrows, ncols)?;
        check_dimension(size, data.len())?;
        Ok(Matrix { nrows, ncols, data })
    }

    /// Builds the matrix of the given shape whose every entry is `value`.
    pub fn filled(nrows: usize, ncols: usize, value: Scalar) -> (r: Result<Matrix, EsnError>)
        ensures
            match entry_count(nrows, ncols) {
                Err(e) => r == Err::<Matrix, EsnError>(e),
                Ok(_) => r is Ok && r->Ok_0@ == MatrixView::filled(nrows as nat, ncols as nat, value),
            },
            r is Ok ==> r->Ok_0@.wf(),
    {
        let size = count_entries(nrows, ncols)?;
        let mut data: Vec<Scalar> = Vec::new();
        let mut k: usize = 0;
        while k < size
            invariant
                k <= size,
                data@.len() == k,
                forall|p: int| 0 <= p < k ==> data@[p] == value,
            decreases size - k,
        {
            data.push(value);
            k += 1;
        }
        assert(data@ =~= MatrixView::filled(nrows as nat, ncols as nat, value).entries);
        Ok(Matrix { nrows, ncols, data })
    }

    /// Builds the square matrix with `value` on the diagonal and zero elsewhere.
    pub fn diagonal(n: usize, value: Scalar) -> (r: Result<Matrix, EsnError>)
        ensures
            match entry_count(n, n) {
                Err(e) => r == Err::<Matrix, EsnError>(e),
                Ok(_) => r is Ok && r->Ok_0@ == MatrixView::diagonal(n as nat, value),
            },
            r is Ok ==> r->Ok_0@.wf(),
    {
        let size = count_entries(n, n)?;
        let mut data: Vec<Scalar> = Vec::new();
        let mut k: usize = 0;
        while k < size
            invariant
                k <= size,
                size == n * n,
                data@.len() == k,
                forall|p: int| 0 <= p < k ==> data@[p] == MatrixView::diagonal(n as nat, value).entries[p],
            decreases size - k,
        {
            assert(n > 0) by (nonlinear_arith)
                requires
                    k < n * n,
            ;
            let entry = if k % n == k / n {
                value
            } else {
                Scalar::zero()
            };
            data.push(entry);
            k += 1;
        }
        assert(data@ =~= MatrixView::diagonal(n as nat, value).entries);
        Ok(Matrix { nrows: n, ncols: n, data })
    }

    /// The number of rows.
    pub fn nrows(&self) -> (r: usize)
        ensures
            r == self@.rows,
        no_unwind
    {
        self.nrows
    }

    /// The number of columns.
    pub fn ncols(&self) -> (r: usize)
        ensures
            r == self@.cols,
        no_unwind
    {
        self.ncols
    }

    /// The entries in column-major order.
    pub fn as_vec(&self) -> (r: &Vec<Scalar>)
        ensures
            r@ == self@.entries,
            self@.wf(),
    {
        proof {
            use_type_invariant(self);
        }
        &self.data
    }

    /// The entry of row `i` and column `j`, if the matrix has that position.
    pub fn get(&self, i: usize, j: usize) -> (r: Option<Scalar>)
        ensures
            self@.wf(),
            r == if self@.in_range(i as int, j as int) {
                Some(self@.at(i as int, j as int))
            } else {
                None::<Scalar>
            },
    {
        proof {
            use_type_invariant(self);
        }
        if i < self.nrows && j < self.ncols {
            proof {
                self@.offset_in_bounds(i as int, j as int);
                assert(self.data@.len() == self.data.len());
            }
            Some(self.data[j * self.nrows + i])
        } else {
            None
        }
    }

    /// Replaces the entry of row `i` and column `j`.
    pub(crate) fn put(&mut self, i: usize, j: usize, value: Scalar)
        requires
            old(self)@.in_range(i as int, j as int),
        ensures
            final(self)@.wf(),
            final(self)@.rows == old(self)@.rows,
            final(self)@.cols == old(self)@.cols,
            final(self)@.entries == old(self)@.entries.update(
                old(self)@.offset(i as int, j as int),
                value,
            ),
    {
        proof {
            use_type_invariant(&*self);
            self@.offset_in_bounds(i as int, j as int);
            assert(self.data@.len() == self.data.len());
        }
        let k = j * self.nrows + i;
        self.data[k] = value;
    }

    /// Accepts the matrix exactly when it has the given shape; the rows are
    /// compared first.
    pub fn check_shape(&self, nrows: usize, ncols: usize) -> (r: Result<(), EsnError>)
        ensures
            self@.wf(),
            r == shape_check(self@, nrows as nat, ncols as nat),
        no_unwind
    {
        proof {
            use_type_invariant(self);
        }
        if self.nrows != nrows {
            Err(EsnError::DimensionMismatch { expected: nrows, found: self.nrows })
        } else {
            check_dimension(ncols, self.ncols)
        }
    }

    /// Decides [`MatrixView::finite`]: whether no entry is infinite or not a
    /// number.
    pub fn is_finite(&self) -> (r: bool)
        ensures
            r == self@.finite(),
    {
        let mut k: usize = 0;
        while k < self.data.len()
            invariant
                k <= self.data.len(),
                forall|p: int| 0 <= p < k ==> (#[trigger] self.data@[p]).finite(),
            decreases self.data.len() - k,
        {
            if !self.data[k].is_finite() {
                assert(!self@.entries[k as int].finite());
                return false;
            }
            k += 1;
        }
        true
    }
}

impl Clone for Matrix {
    fn clone(&self) -> (r: Matrix)
        ensures
            r@ == self@,
            r@.wf(),
    {
        proof {
            use_type_invariant(self);
        }
        Matrix { nrows: self.nrows, ncols: self.ncols, data: copy_scalars(&self.data) }
    }
}

/// The result of comparing the shape of a matrix with an expected one, rows first.
pub open spec fn shape_check(m: MatrixView, rows: nat, cols: nat) -> Result<(), EsnError> {
    match dimension_check(rows, m.rows) {
        Err(e) => Err(e),
        Ok(_) => dimension_check(cols, m.cols),
    }
}

/// A matrix passes the shape check exactly when it has the expected shape,
/// and otherwise the check raises `DimensionMismatch`.
pub proof fn shape_check_accepts(m: MatrixView, rows: nat, cols: nat)
    ensures
        shape_check(m, rows, cols) is Ok <==> m.has_shape(rows, cols),
        shape_check(m, rows, cols) is Err ==> shape_check(m, rows, cols)->Err_0 is DimensionMismatch,
{
}

/// A copy of a vector of scalars.
pub fn copy_scalars(v: &Vec<Scalar>) -> (r: Vec<Scalar>)
    ensures
        r@ == v@,
{
    let mut out: Vec<Scalar> = Vec::new();
    let mut k: usize = 0;
    while k < v.len()
        invariant
            k <= v.len(),
            out@ == v@.take(k as int),
        decreases v.len() - k,
    {
        out.push(v[k]);
        assert(v@.take(k as int + 1) =~= v@.take(k as int).push(v@[k as int]));
        k += 1;
    }
    assert(v@.take(v.len() as int) =~= v@);
    out
}

} // verus!

//! Batch ridge regression: the accumulators of the normal equations.

use vstd::prelude::*;
use crate::error::check_dimension;
use crate::error::dimension_check;
use crate::error::EsnError;
use crate::matrix::entry_count;
use crate::matrix::shape_check;
use crate::matrix::Matrix;
use crate::matrix::MatrixView;
use crate::scalar::Scalar;

verus! {

/// What a [`Ridge`] stands for: the penalty, the sum of the outer products of
/// the states with themselves, and the sum of the outer products of the
/// targets with the states.
pub struct RidgeView {
    pub beta: Scalar,
    pub x_xt: MatrixView,
    pub d_xt: MatrixView,
}

impl RidgeView {
    /// The length of the state vectors.
    pub open spec fn n_x(self) -> nat {
        self.x_xt.rows
    }

    /// The length of the target vectors.
    pub open spec fn n_y(self) -> nat {
        self.d_xt.rows
    }

    /// The first accumulator is `n_x` by `n_x`, the second `n_y` by `n_x`,
    /// neither dimension is zero, and the penalty is finite and not negative.
    pub open spec fn wf(self) -> bool {
        &&& self.x_xt.wf()
        &&& self.d_xt.wf()
        &&& self.x_xt.rows == self.x_xt.cols
        &&& self.d_xt.cols == self.x_xt.rows
        &&& self.x_xt.rows > 0
        &&& self.d_xt.rows > 0
        &&& self.beta.non_negative()
    }

    /// The engine before any sample: both accumulators zero.
    pub open spec fn empty(n_x: nat, n_y: nat, beta: Scalar) -> RidgeView {
        RidgeView {
            beta,
            x_xt: MatrixView::filled(n_x, n_x, Scalar { bits: 0 }),
            d_xt: MatrixView::filled(n_y, n_x, Scalar { bits: 0 }),
        }
    }
}

/// The result of building a ridge engine.
pub open spec fn ridge_outcome(n_x: usize, n_y: usize, beta: Scalar) -> Result<RidgeView, EsnError> {
    if n_x == 0 || n_y == 0 || !beta.non_negative() || entry_count(n_x, n_x) is Err || entry_count(
        n_y,
        n_x,
    ) is Err {
        Err(EsnError::InvalidParameter)
    } else {
        Ok(RidgeView::empty(n_x as nat, n_y as nat, beta))
    }
}

/// The result of checking a sample against the dimensions of an engine: the
/// state is compared first, then the target.
pub open spec fn sample_check(n_x: nat, n_y: nat, x_len: nat, d_len: nat) -> Result<(), EsnError> {
    match dimension_check(n_x, x_len) {
        Err(e) => Err(e),
        Ok(_) => dimension_check(n_y, d_len),
    }
}

/// A sample passes the check exactly when the state has length `n_x` and the
/// target length `n_y`, and otherwise the check raises `DimensionMismatch`.
pub proof fn sample_check_accepts(n_x: nat, n_y: nat, x_len: nat, d_len: nat)
    ensures
        sample_check(n_x, n_y, x_len, d_len) is Ok <==> x_len == n_x && d_len == n_y,
        sample_check(n_x, n_y, x_len, d_len) is Err ==> sample_check(n_x, n_y, x_len, d_len)->Err_0
            is DimensionMismatch,
{
}

/// The result of checking two matrices against the shapes `n_x` by `n_x` and
/// `n_y` by `n_x`, the square one first.
pub open spec fn pair_shape_check(n_x: nat, n_y: nat, square: MatrixView, wide: MatrixView) -> Result<
    (),
    EsnError,
> {
    match shape_check(square, n_x, n_x) {
        Err(e) => Err(e),
        Ok(_) => shape_check(wide, n_y, n_x),
    }
}

/// The result of taking the outcome of a linear solve as readout weights.
/// A singular system shows in one of two ways: the solve has no outcome, or
/// its outcome holds an entry that is infinite or not a number.
pub open spec fn solution_check(n_x: nat, n_y: nat, solution: Option<MatrixView>) -> Result<
    MatrixView,
    EsnError,
> {
    match solution {
        None => Err(EsnError::SingularMatrix),
        Some(w) => match shape_check(w, n_y, n_x) {
            Err(e) => Err(e),
            Ok(_) => if w.finite() {
                Ok(w)
            } else {
                Err(EsnError::SingularMatrix)
            },
        },
    }
}

/// A batch ridge regression engine.
#[derive(Debug)]
pub struct Ridge {
    beta: Scalar,
    x_xt: Matrix,
    d_xt: Matrix,
}

impl View for Ridge {
    type V = RidgeView;

    closed spec fn view(&self) -> RidgeView {
        RidgeView { beta: self.beta, x_xt: self.x_xt@, d_xt: self.d_xt@ }
    }
}

impl Ridge {
    #[verifier::type_invariant]
    closed spec fn inv(self) -> bool {
        self@.wf()
    }

    /// Builds the engine for states of length `n_x` and targets of length
    /// `n_y`, with both accumulators zero.
    ///
    /// Fails with `InvalidParameter` when a dimension is zero or too large, or
    /// when `beta` is negative or not finite.
    pub fn new(n_x: usize, n_y: usize, beta: Scalar) -> (r: Result<Ridge, EsnError>)
        ensures
            match ridge_outcome(n_x, n_y, beta) {
                Err(e) => r == Err::<Ridge, EsnError>(e),
                Ok(v) => r is Ok && r->Ok_0@ == v,
            },
            r is Ok ==> r->Ok_0@.wf(),
    {
        if n_x == 0 || n_y == 0 || !beta.is_non_negative() {
            return Err(EsnError::InvalidParameter);
        }
        let x_xt = Matrix::filled(n_x, n_x, Scalar::zero())?;
        let d_xt = Matrix::filled(n_y, n_x, Scalar::zero())?;
        Ok(Ridge { beta, x_xt, d_xt })
    }

    /// The length of the state vectors.
    pub fn n_x(&self) -> (r: usize)
        ensures
            r == self@.n_x(),
            self@.wf(),
    {
        proof {
            use_type_invariant(self);
        }
        self.x_xt.nrows()
    }

    /// The length of the target vectors.
    pub fn n_y(&self) -> (r: usize)
        ensures
            r == self@.n_y(),
            self@.wf(),
    {
        proof {
            use_type_invariant(self);
        }
        self.d_xt.nrows()
    }

    /// The ridge penalty.
    pub fn beta(&self) -> (r: Scalar)
        ensures
            r == self@.beta,
            self@.wf(),
    {
        proof {
            use_type_invariant(self);
        }
        self.beta
    }

    /// The accumulated outer products of the states with themselves.
    pub fn x_xt(&self) -> (r: &Matrix)
        ensures
            r@ == self@.x_xt,
            self@.wf(),
    {
        proof {
            use_type_invariant(self);
        }
        &self.x_xt
    }

    /// The accumulated outer products of the targets with the states.
    pub fn d_xt(&self) -> (r: &Matrix)
        ensures
            r@ == self@.d_xt,
            self@.wf(),
    {
        proof {
            use_type_invariant(self);
        }
        &self.d_xt
    }

    /// Accepts a sample exactly when the state has length `n_x` and the
    /// target length `n_y`.
    pub fn check_sample(&self, x: &Vec<Scalar>, d: &Vec<Scalar>) -> (r: Result<(), EsnError>)
        ensures
            r == sample_check(self@.n_x(), self@.n_y(), x@.len(), d@.len()),
            self@.wf(),
    {
        proof {
            use_type_invariant(self);
        }
        check_dimension(self.x_xt.nrows(), x.len())?;
        check_dimension(self.d_xt.nrows(), d.len())
    }

    /// Replaces both accumulators by the sums that include one more sample.
    ///
    /// Matrices of the wrong shape are refused with `DimensionMismatch` and
    /// the engine stays as it was.
    pub fn set_accumulators(&mut self, x_xt: Matrix, d_xt: Matrix) -> (r: Result<(), EsnError>)
        ensures
            r == pair_shape_check(old(self)@.n_x(), old(self)@.n_y(), x_xt@, d_xt@),
            r is Ok ==> final(self)@ == (RidgeView { x_xt: x_xt@, d_xt: d_xt@, ..old(self)@ }),
            r is Err ==> final(self)@ == old(self)@,
            final(self)@.wf(),
    {
        proof {
            use_type_invariant(&*self);
        }
        let n_x = self.x_xt.nrows();
        let n_y = self.d_xt.nrows();
        x_xt.check_shape(n_x, n_x)?;
        d_xt.check_shape(n_y, n_x)?;
        self.x_xt = x_xt;
        self.d_xt = d_xt;
        Ok(())
    }

    /// Takes the outcome of solving the regularised normal equations as the
    /// readout weights.
    ///
    /// Fails with `SingularMatrix` when the solve had no outcome or one with
    /// an entry that is not finite, and with `DimensionMismatch` when the
    /// outcome is not `n_y` by `n_x`. Weights that are accepted are finite.
    pub fn accept_solution(&self, solution: Option<Matrix>) -> (r: Result<Matrix, EsnError>)
        ensures
            self@.wf(),
            match solution_check(
                self@.n_x(),
                self@.n_y(),
                match solution {
                    Some(w) => Some(w@),
                    None => None,
                },
            ) {
                Err(e) => r == Err::<Matrix, EsnError>(e),
                Ok(w) => r is Ok && r->Ok_0@ == w,
            },
            r is Ok ==> r->Ok_0@.finite() && r->Ok_0@.wf() && r->Ok_0@.has_shape(
                self@.n_y(),
                self@.n_x(),
            ),
    {
        proof {
            use_type_invariant(self);
        }
        match solution {
            None => Err(EsnError::SingularMatrix),
            Some(w) => {
                w.check_shape(self.d_xt.nrows(), self.x_xt.nrows())?;
                if w.is_finite() {
                    Ok(w)
                } else {
                    Err(EsnError::SingularMatrix)
                }
            },
        }
    }
}

impl Clone for Ridge {
    fn clone(&self) -> (r: Ridge)
        ensures
            r@ == self@,
            r@.wf(),
    {
        proof {
            use_type_invariant(self);
        }
        Ridge { beta: self.beta, x_xt: self.x_xt.clone(), d_xt: self.d_xt.clone() }
    }
}

} // verus!

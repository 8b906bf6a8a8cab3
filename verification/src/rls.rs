//! Online recursive least squares: the running estimate.

use vstd::prelude::*;
use crate::error::check_dimension;
use crate::error::EsnError;
use crate::matrix::entry_count;
use crate::matrix::Matrix;
use crate::matrix::MatrixView;
use crate::ridge::pair_shape_check;
use crate::ridge::sample_check;
use crate::scalar::Scalar;

verus! {

/// What an [`RLS`] stands for: the inverse-covariance estimate, the
/// forgetting factor and the live readout weights.
pub struct RlsView {
    pub p: MatrixView,
    pub lambda: Scalar,
    pub weight: MatrixView,
}

impl RlsView {
    /// The length of the state vectors.
    pub open spec fn n_x(self) -> nat {
        self.p.rows
    }

    /// The length of the target vectors.
    pub open spec fn n_y(self) -> nat {
        self.weight.rows
    }

    /// `p` is `n_x` by `n_x`, the weights are `n_y` by `n_x`, neither
    /// dimension is zero, and the forgetting factor is finite and above zero.
    pub open spec fn wf(self) -> bool {
        &&& self.p.wf()
        &&& self.weight.wf()
        &&& self.p.rows == self.p.cols
        &&& self.weight.cols == self.p.rows
        &&& self.p.rows > 0
        &&& self.weight.rows > 0
        &&& self.lambda.positive()
    }

    /// The filter before any sample: `p` is `gain` times the identity, and
    /// the weights are zero.
    pub open spec fn initial(n_x: nat, n_y: nat, lambda: Scalar, gain: Scalar) -> RlsView {
        RlsView {
            p: MatrixView::diagonal(n_x, gain),
            lambda,
            weight: MatrixView::filled(n_y, n_x, Scalar { bits: 0 }),
        }
    }
}

/// The result of building a recursive least squares filter.
pub open spec fn rls_outcome(n_x: usize, n_y: usize, lambda: Scalar, gain: Scalar) -> Result<
    RlsView,
    EsnError,
> {
    if n_x == 0 || n_y == 0 || !lambda.positive() || !gain.positive() || entry_count(n_x, n_x) is Err
        || entry_count(n_y, n_x) is Err {
        Err(EsnError::InvalidParameter)
    } else {
        Ok(RlsView::initial(n_x as nat, n_y as nat, lambda, gain))
    }
}

/// A recursive least squares filter.
#[derive(Debug)]
pub struct RLS {
    p: Matrix,
    lambda: Scalar,
    weight: Matrix,
}

impl View for RLS {
    type V = RlsView;

    closed spec fn view(&self) -> RlsView {
        RlsView { p: self.p@, lambda: self.lambda, weight: self.weight@ }
    }
}

impl RLS {
    #[verifier::type_invariant]
    closed spec fn inv(self) -> bool {
        self@.wf()
    }

    /// Builds the filter for states of length `n_x` and targets of length
    /// `n_y`. `gain` is the reciprocal of the regularisation parameter: `p`
    /// starts as `gain` times the identity, the weights start at zero.
    ///
    /// Fails with `InvalidParameter` when a dimension is zero or too large, or
    /// when `lambda` or `gain` is not a finite number above zero.
    pub fn new(n_x: usize, n_y: usize, lambda: Scalar, gain: Scalar) -> (r: Result<RLS, EsnError>)
        ensures
            match rls_outcome(n_x, n_y, lambda, gain) {
                Err(e) => r == Err::<RLS, EsnError>(e),
                Ok(v) => r is Ok && r->Ok_0@ == v,
            },
            r is Ok ==> r->Ok_0@.wf(),
    {
        if n_x == 0 || n_y == 0 || !lambda.is_positive() || !gain.is_positive() {
            return Err(EsnError::InvalidParameter);
        }
        let p = Matrix::diagonal(n_x, gain)?;
        let weight = Matrix::filled(n_y, n_x, Scalar::zero())?;
        Ok(RLS { p, lambda, weight })
    }

    /// The length of the state vectors.
    pub fn n_x(&self) -> (r: usize)
        ensures
            r == self@.n_x(),
            self@.wf(),
    {
        proof {
            use_type_invariant(self);
        }
        self.p.nrows()
    }

    /// The length of the target vectors.
    pub fn n_y(&self) -> (r: usize)
        ensures
            r == self@.n_y(),
            self@.wf(),
    {
        proof {
            use_type_invariant(self);
        }
        self.weight.nrows()
    }

    /// The forgetting factor.
    pub fn lambda(&self) -> (r: Scalar)
        ensures
            r == self@.lambda,
            self@.wf(),
    {
        proof {
            use_type_invariant(self);
        }
        self.lambda
    }

    /// The inverse-covariance estimate.
    pub fn p(&self) -> (r: &Matrix)
        ensures
            r@ == self@.p,
            self@.wf(),
    {
        proof {
            use_type_invariant(self);
        }
        &self.p
    }

    /// The live readout weights.
    pub fn weight(&self) -> (r: &Matrix)
        ensures
            r@ == self@.weight,
            self@.wf(),
    {
        proof {
            use_type_invariant(self);
        }
        &self.weight
    }

    /// A copy of the live readout weights: the estimate is always current,
    /// there is no separate solve.
    pub fn fit(&self) -> (r: Matrix)
        ensures
            r@ == self@.weight,
            self@.wf(),
    {
        proof {
            use_type_invariant(self);
        }
        self.weight.clone()
    }

    /// Accepts a sample exactly when the state has length `n_x` and the
    /// target length `n_y`.
    pub fn check_sample(&self, x: &Vec<Scalar>, d: &Vec<Scalar>) -> (r: Result<(), EsnError>)
        ensures
            r == sample_check(self@.n_x(), self@.n_y(), x@.len(), d@.len()),
            self@.wf(),
    {
        proof {
            use_type_invariant(self);
        }
        check_dimension(self.p.nrows(), x.len())?;
        check_dimension(self.weight.nrows(), d.len())
    }

    /// Replaces the estimate by the outcome of one update.
    ///
    /// Matrices of the wrong shape are refused with `DimensionMismatch` and
    /// the filter stays as it was.
    pub fn set_estimate(&mut self, p: Matrix, weight: Matrix) -> (r: Result<(), EsnError>)
        ensures
            r == pair_shape_check(old(self)@.n_x(), old(self)@.n_y(), p@, weight@),
            r is Ok ==> final(self)@ == (RlsView { p: p@, weight: weight@, ..old(self)@ }),
            r is Err ==> final(self)@ == old(self)@,
            final(self)@.wf(),
    {
        proof {
            use_type_invariant(&*self);
        }
        let n_x = self.p.nrows();
        let n_y = self.weight.nrows();
        p.check_shape(n_x, n_x)?;
        weight.check_shape(n_y, n_x)?;
        self.p = p;
        self.weight = weight;
        Ok(())
    }
}

impl Clone for RLS {
    fn clone(&self) -> (r: RLS)
        ensures
            r@ == self@,
            r@.wf(),
    {
        proof {
            use_type_invariant(self);
        }
        RLS { p: self.p.clone(), lambda: self.lambda, weight: self.weight.clone() }
    }
}

} // verus!

//! Dense linear maps between the input, the reservoir and the output.

use vstd::prelude::*;
use crate::error::check_dimension;
use crate::error::dimension_check;
use crate::error::EsnError;
use crate::matrix::count_entries;
use crate::matrix::entry_count;
use crate::matrix::shape_check;
use crate::matrix::Matrix;
use crate::matrix::MatrixView;
use crate::scalar::Scalar;

verus! {

/// The result of sizing a projection: the number of weights to draw, or
/// `InvalidParameter` when a dimension is zero or the weights are more than a
/// `usize` can count.
pub open spec fn projection_size(out_dim: usize, in_dim: usize) -> Result<usize, EsnError> {
    if out_dim == 0 || in_dim == 0 {
        Err(EsnError::InvalidParameter)
    } else {
        entry_count(out_dim, in_dim)
    }
}

/// The result of checking the scale of a projection, which is the half-width
/// of the interval around zero that its weights are drawn from: it must be
/// above zero, and the interval must have a finite width.
pub open spec fn scale_check(scale: Scalar) -> Result<(), EsnError> {
    if scale.half_width() {
        Ok(())
    } else {
        Err(EsnError::InvalidParameter)
    }
}

/// The result of building a projection from its weights.
pub open spec fn projection_outcome(out_dim: usize, in_dim: usize, elements: Seq<Scalar>) -> Result<
    MatrixView,
    EsnError,
> {
    match projection_size(out_dim, in_dim) {
        Err(e) => Err(e),
        Ok(size) => match dimension_check(size as nat, elements.len()) {
            Err(e) => Err(e),
            Ok(_) => Ok(MatrixView { rows: out_dim as nat, cols: in_dim as nat, entries: elements }),
        },
    }
}

/// A linear map from vectors of length `in_dim` to vectors of length
/// `out_dim`, held as its `out_dim` by `in_dim` weight matrix.
#[derive(Debug)]
pub struct Projection {
    weight: Matrix,
}

/// The projection from the inputs to the reservoir units, `n_x` by `n_u`.
pub type Input = Projection;

/// The projection from the reservoir units to the outputs, `n_y` by `n_x`:
/// the readout, and the only projection that training overwrites.
pub type Output = Projection;

/// The projection from the outputs back to the reservoir units, `n_x` by
/// `n_y`.
pub type Feedback = Projection;

impl View for Projection {
    type V = MatrixView;

    closed spec fn view(&self) -> MatrixView {
        self.weight@
    }
}

impl Projection {
    #[verifier::type_invariant]
    closed spec fn inv(self) -> bool {
        self.weight@.wf() && self.weight@.rows > 0 && self.weight@.cols > 0
    }

    /// Computes [`projection_size`]: how many weights a projection of the
    /// given dimensions needs.
    pub fn element_count(out_dim: usize, in_dim: usize) -> (r: Result<usize, EsnError>)
        ensures
            r == projection_size(out_dim, in_dim),
    {
        if out_dim == 0 || in_dim == 0 {
            return Err(EsnError::InvalidParameter);
        }
        count_entries(out_dim, in_dim)
    }

    /// Computes [`scale_check`].
    pub fn check_scale(scale: Scalar) -> (r: Result<(), EsnError>)
        ensures
            r == scale_check(scale),
    {
        if scale.is_half_width() {
            Ok(())
        } else {
            Err(EsnError::InvalidParameter)
        }
    }

    /// Builds the projection whose weight matrix has the given entries in
    /// column-major order.
    ///
    /// Fails with `InvalidParameter` when a dimension is zero or too large,
    /// and with `DimensionMismatch` when `elements` does not hold exactly one
    /// weight for each position.
    pub fn new(out_dim: usize, in_dim: usize, elements: Vec<Scalar>) -> (r: Result<
        Projection,
        EsnError,
    >)
        ensures
            match projection_outcome(out_dim, in_dim, elements@) {
                Err(e) => r == Err::<Projection, EsnError>(e),
                Ok(m) => r is Ok && r->Ok_0@ == m,
            },
            r is Ok ==> r->Ok_0.wf(),
    {
        if out_dim == 0 || in_dim == 0 {
            return Err(EsnError::InvalidParameter);
        }
        let weight = Matrix::from_vec(out_dim, in_dim, elements)?;
        Ok(Projection { weight })
    }

    /// What holds of every projection: its weight matrix is well formed and
    /// neither dimension is zero.
    pub open spec fn wf(self) -> bool {
        self@.wf() && self@.rows > 0 && self@.cols > 0
    }

    /// The length of the vectors that the projection yields.
    pub fn out_dim(&self) -> (r: usize)
        ensures
            r == self@.rows,
            self.wf(),
    {
        proof {
            use_type_invariant(self);
        }
        self.weight.nrows()
    }

    /// The length of the vectors that the projection takes.
    pub fn in_dim(&self) -> (r: usize)
        ensures
            r == self@.cols,
            self.wf(),
    {
        proof {
            use_type_invariant(self);
        }
        self.weight.ncols()
    }

    /// The weight matrix.
    pub fn weight(&self) -> (r: &Matrix)
        ensures
            r@ == self@,
            self.wf(),
    {
        proof {
            use_type_invariant(self);
        }
        &self.weight
    }

    /// Accepts a vector exactly when the projection can be applied to it.
    pub fn check_input(&self, x: &Vec<Scalar>) -> (r: Result<(), EsnError>)
        ensures
            r == dimension_check(self@.cols, x@.len()),
            self.wf(),
    {
        proof {
            use_type_invariant(self);
        }
        check_dimension(self.weight.ncols(), x.len())
    }

    /// Overwrites the weight matrix with one of the same shape.
    ///
    /// A matrix of another shape is refused with `DimensionMismatch` and the
    /// projection keeps its weights.
    pub fn set_weight(&mut self, weight: Matrix) -> (r: Result<(), EsnError>)
        ensures
            r == shape_check(weight@, old(self)@.rows, old(self)@.cols),
            r is Ok ==> final(self)@ == weight@,
            r is Err ==> final(self)@ == old(self)@,
            final(self).wf(),
        no_unwind
    {
        proof {
            use_type_invariant(&*self);
        }
        let checked = weight.check_shape(self.weight.nrows(), self.weight.ncols());
        match checked {
            Ok(_) => {
                self.weight = weight;
            },
            Err(_) => {},
        }
        checked
    }
}

impl Clone for Projection {
    fn clone(&self) -> (r: Projection)
        ensures
            r@ == self@,
            r.wf(),
    {
        proof {
            use_type_invariant(self);
        }
        Projection { weight: self.weight.clone() }
    }
}

} // verus!

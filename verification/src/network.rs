//! The echo-state network: projections, reservoir and the output carried from
//! one step to the next.

use vstd::prelude::*;
use crate::error::check_dimension;
use crate::error::dimension_check;
use crate::error::EsnError;
use crate::matrix::shape_check;
use crate::matrix::Matrix;
use crate::matrix::MatrixView;
use crate::projection::projection_size;
use crate::projection::scale_check;
use crate::projection::Feedback;
use crate::projection::Input;
use crate::projection::Output;
use crate::projection::Projection;
use crate::reservoir::reservoir_plan;
use crate::reservoir::rest_state;
use crate::reservoir::zeros;
use crate::reservoir::Reservoir;
use crate::reservoir::ReservoirView;
use crate::ridge::sample_check;
use crate::scalar::Scalar;

verus! {

/// The elementwise transform between the readout and the output. Each
/// variant names a function together with its inverse, which is applied to
/// the targets during training.
#[derive(Debug, Clone, Copy, PartialEq, Eq, Structural)]
pub enum OutputFunction {
    /// The identity, which is its own inverse.
    Identity,
    /// The hyperbolic tangent, whose inverse is the area hyperbolic tangent.
    Tanh,
}

impl Default for OutputFunction {
    fn default() -> (r: OutputFunction)
        ensures
            r == OutputFunction::Identity,
    {
        OutputFunction::Identity
    }
}

/// What has to be drawn to build a network: the number of unit pairs among
/// which the connections are chosen, and the number of weights of each
/// projection.
#[derive(Debug, Clone, Copy, PartialEq, Eq, Structural)]
pub struct Plan {
    pub pairs: usize,
    pub input_weights: usize,
    pub output_weights: usize,
    pub feedback_weights: Option<usize>,
}

/// The result of checking every parameter that a network is built from,
/// before anything is drawn.
///
/// The parameters are refused with `InvalidParameter` when a dimension is
/// zero, when there are fewer than two units, when a matrix would have more
/// entries than can be counted, when the density or the leaking rate lies
/// outside `[0, 1]`, when the spectral radius is not a finite number above
/// zero, or when a scale is not above zero or too large for an interval of
/// finite width.
pub open spec fn construction_plan(
    n_u: usize,
    n_y: usize,
    n_x: usize,
    density: Scalar,
    input_scale: Scalar,
    rho: Scalar,
    feedback_scale: Option<Scalar>,
    leaking_rate: Scalar,
) -> Result<Plan, EsnError> {
    if reservoir_plan(n_x, density, rho, leaking_rate) is Err || scale_check(input_scale) is Err
        || projection_size(n_x, n_u) is Err || projection_size(n_y, n_x) is Err || (
    feedback_scale is Some && (scale_check(feedback_scale->Some_0) is Err || projection_size(n_x, n_y)
        is Err)) {
        Err(EsnError::InvalidParameter)
    } else {
        Ok(
            Plan {
                pairs: reservoir_plan(n_x, density, rho, leaking_rate)->Ok_0,
                input_weights: projection_size(n_x, n_u)->Ok_0,
                output_weights: projection_size(n_y, n_x)->Ok_0,
                feedback_weights: if feedback_scale is Some {
                    Some(projection_size(n_x, n_y)->Ok_0)
                } else {
                    None
                },
            },
        )
    }
}

/// What an [`EchoStateNetwork`] stands for.
pub struct NetworkView {
    pub input: MatrixView,
    pub reservoir: ReservoirView,
    pub output: MatrixView,
    pub feedback: Option<MatrixView>,
    pub previous_output: Seq<Scalar>,
    pub output_function: OutputFunction,
}

impl NetworkView {
    /// The length of the input vectors.
    pub open spec fn n_u(self) -> nat {
        self.input.cols
    }

    /// The number of reservoir units.
    pub open spec fn n_x(self) -> nat {
        self.reservoir.n_x()
    }

    /// The length of the output vectors.
    pub open spec fn n_y(self) -> nat {
        self.output.rows
    }

    /// The input weight is `n_x` by `n_u`, the output weight `n_y` by `n_x`,
    /// the feedback weight, where there is one, `n_x` by `n_y`, and the
    /// carried output has length `n_y`.
    pub open spec fn wf(self) -> bool {
        &&& self.input.wf()
        &&& self.reservoir.wf()
        &&& self.output.wf()
        &&& self.input.rows == self.n_x()
        &&& self.output.cols == self.n_x()
        &&& self.n_u() > 0
        &&& self.n_y() > 0
        &&& self.previous_output.len() == self.n_y()
        &&& match self.feedback {
            Some(f) => f.wf() && f.rows == self.n_x() && f.cols == self.n_y(),
            None => true,
        }
    }

    /// The network as it is right after construction: reservoir at rest, and
    /// a carried output of zeros.
    pub open spec fn fresh(
        input: MatrixView,
        reservoir: ReservoirView,
        output: MatrixView,
        feedback: Option<MatrixView>,
        output_function: OutputFunction,
    ) -> NetworkView {
        NetworkView {
            input,
            reservoir: reservoir.reset(),
            output,
            feedback,
            previous_output: rest_state(output.rows),
            output_function,
        }
    }

    /// The network with the reservoir put to rest and the carried output
    /// zeroed; the weights stay.
    pub open spec fn reset(self) -> NetworkView {
        NetworkView {
            reservoir: self.reservoir.reset(),
            previous_output: rest_state(self.output.rows),
            ..self
        }
    }

    /// The network after one step: the reservoir in the new state, and the
    /// given output carried to the next step.
    pub open spec fn advanced(self, state: Seq<Scalar>, output: Seq<Scalar>) -> NetworkView {
        NetworkView {
            reservoir: self.reservoir.with_state(state),
            previous_output: output,
            ..self
        }
    }

    /// Resetting a network gives the freshly constructed network of the same
    /// weights, whatever it went through before: from there on the two
    /// cannot be told apart.
    pub proof fn reset_restores_fresh(self)
        ensures
            self.reset() == NetworkView::fresh(
                self.input,
                self.reservoir,
                self.output,
                self.feedback,
                self.output_function,
            ),
            self.wf() ==> self.reset().wf(),
    {
    }

    /// A step with vectors of the right lengths and an overwrite of the
    /// output weight by a matrix of the right shape both leave the network
    /// well formed, with the dimensions it had.
    pub proof fn changes_keep_well_formed(self, state: Seq<Scalar>, output: Seq<Scalar>, weight: MatrixView)
        requires
            self.wf(),
        ensures
            state.len() == self.n_x() && output.len() == self.n_y() ==> self.advanced(state, output).wf(),
            self.advanced(state, output).n_u() == self.n_u(),
            self.advanced(state, output).n_x() == self.n_x(),
            self.advanced(state, output).n_y() == self.n_y(),
            weight.wf() && weight.has_shape(self.n_y(), self.n_x()) ==> (NetworkView {
                output: weight,
                ..self
            }).wf(),
    {
    }

    /// A step changes neither a weight nor a dimension, and a reset after
    /// any number of steps forgets them all.
    pub proof fn reset_forgets_steps(self, state: Seq<Scalar>, output: Seq<Scalar>)
        ensures
            self.advanced(state, output).reset() == self.reset(),
            self.advanced(state, output).input == self.input,
            self.advanced(state, output).output == self.output,
            self.advanced(state, output).feedback == self.feedback,
            self.advanced(state, output).reservoir.weight == self.reservoir.weight,
    {
    }
}

/// The result of putting a network together: the reservoir sets the number
/// of units, and the input, output and feedback projections must fit it, in
/// that order.
pub open spec fn network_outcome(
    input: MatrixView,
    reservoir: ReservoirView,
    output: MatrixView,
    feedback: Option<MatrixView>,
    output_function: OutputFunction,
) -> Result<NetworkView, EsnError> {
    let n_x = reservoir.n_x();
    if dimension_check(n_x, input.rows) is Err {
        Err(dimension_check(n_x, input.rows)->Err_0)
    } else if dimension_check(n_x, output.cols) is Err {
        Err(dimension_check(n_x, output.cols)->Err_0)
    } else {
        match feedback {
            Some(f) => match shape_check(f, n_x, output.rows) {
                Err(e) => Err(e),
                Ok(_) => Ok(NetworkView::fresh(input, reservoir, output, feedback, output_function)),
            },
            None => Ok(NetworkView::fresh(input, reservoir, output, feedback, output_function)),
        }
    }
}

/// The first sample of a teaching sequence, from `from` on, that does not fit
/// the dimensions, as the error it raises; `Ok` when all fit. In each sample
/// the input is looked at before the target.
pub open spec fn samples_check(
    n_u: nat,
    n_y: nat,
    inputs: Seq<Vec<Scalar>>,
    targets: Seq<Vec<Scalar>>,
    from: int,
) -> Result<(), EsnError>
    decreases inputs.len() - from,
{
    if from < 0 || from >= inputs.len() || from >= targets.len() {
        Ok(())
    } else {
        match sample_check(n_u, n_y, inputs[from]@.len(), targets[from]@.len()) {
            Err(e) => Err(e),
            Ok(_) => samples_check(n_u, n_y, inputs, targets, from + 1),
        }
    }
}

/// The result of checking a teaching sequence: its length, or the error of
/// the first thing that does not fit. The two sequences are compared in
/// length first.
pub open spec fn teaching_check(
    n_u: nat,
    n_y: nat,
    inputs: Seq<Vec<Scalar>>,
    targets: Seq<Vec<Scalar>>,
) -> Result<usize, EsnError> {
    if inputs.len() != targets.len() {
        Err(dimension_check(inputs.len(), targets.len())->Err_0)
    } else {
        match samples_check(n_u, n_y, inputs, targets, 0) {
            Err(e) => Err(e),
            Ok(_) => Ok(inputs.len() as usize),
        }
    }
}

/// The first input of a sequence, from `from` on, that does not have length
/// `n_u`, as the error it raises; `Ok` when all fit.
pub open spec fn inputs_check(n_u: nat, inputs: Seq<Vec<Scalar>>, from: int) -> Result<(), EsnError>
    decreases inputs.len() - from,
{
    if from < 0 || from >= inputs.len() {
        Ok(())
    } else {
        match dimension_check(n_u, inputs[from]@.len()) {
            Err(e) => Err(e),
            Ok(_) => inputs_check(n_u, inputs, from + 1),
        }
    }
}

/// A teaching sequence passes the check exactly when the two sequences are
/// equally long, every input has length `n_u` and every target length `n_y`.
pub proof fn teaching_check_accepts(
    n_u: nat,
    n_y: nat,
    inputs: Seq<Vec<Scalar>>,
    targets: Seq<Vec<Scalar>>,
)
    ensures
        teaching_check(n_u, n_y, inputs, targets) is Ok <==> {
            &&& inputs.len() == targets.len()
            &&& forall|k: int| 0 <= k < inputs.len() ==> (#[trigger] inputs[k]).len() == n_u
            &&& forall|k: int| 0 <= k < targets.len() ==> (#[trigger] targets[k]).len() == n_y
        },
        teaching_check(n_u, n_y, inputs, targets) is Err ==> teaching_check(
            n_u,
            n_y,
            inputs,
            targets,
        )->Err_0 is DimensionMismatch,
{
    if inputs.len() == targets.len() {
        samples_check_accepts(n_u, n_y, inputs, targets, 0);
    }
}

proof fn samples_check_accepts(
    n_u: nat,
    n_y: nat,
    inputs: Seq<Vec<Scalar>>,
    targets: Seq<Vec<Scalar>>,
    from: int,
)
    requires
        inputs.len() == targets.len(),
        0 <= from <= inputs.len(),
    ensures
        samples_check(n_u, n_y, inputs, targets, from) is Ok <==> {
            &&& forall|k: int| from <= k < inputs.len() ==> (#[trigger] inputs[k]).len() == n_u
            &&& forall|k: int| from <= k < targets.len() ==> (#[trigger] targets[k]).len() == n_y
        },
        samples_check(n_u, n_y, inputs, targets, from) is Err ==> samples_check(
            n_u,
            n_y,
            inputs,
            targets,
            from,
        )->Err_0 is DimensionMismatch,
    decreases inputs.len() - from,
{
    if from < inputs.len() {
        samples_check_accepts(n_u, n_y, inputs, targets, from + 1);
        if sample_check(n_u, n_y, inputs[from]@.len(), targets[from]@.len()) is Err {
            assert(inputs[from].len() != n_u || targets[from].len() != n_y);
        }
    }
}

/// A sequence of inputs passes the check exactly when every input has length
/// `n_u`, and otherwise the check raises `DimensionMismatch`.
pub proof fn inputs_check_accepts(n_u: nat, inputs: Seq<Vec<Scalar>>, from: int)
    requires
        0 <= from <= inputs.len(),
    ensures
        inputs_check(n_u, inputs, from) is Ok <==> forall|k: int|
            from <= k < inputs.len() ==> (#[trigger] inputs[k]).len() == n_u,
        inputs_check(n_u, inputs, from) is Err ==> inputs_check(n_u, inputs, from)->Err_0
            is DimensionMismatch,
    decreases inputs.len() - from,
{
    if from < inputs.len() {
        inputs_check_accepts(n_u, inputs, from + 1);
        if dimension_check(n_u, inputs[from]@.len()) is Err {
            assert(inputs[from].len() != n_u);
        }
    }
}

/// An echo-state network.
#[derive(Debug)]
pub struct EchoStateNetwork {
    input: Input,
    reservoir: Reservoir,
    output: Output,
    feedback: Option<Feedback>,
    previous_output: Vec<Scalar>,
    output_function: OutputFunction,
}

/// The weights of an optional projection.
pub open spec fn optional_view(p: Option<Projection>) -> Option<MatrixView> {
    match p {
        Some(f) => Some(f@),
        None => None,
    }
}

impl View for EchoStateNetwork {
    type V = NetworkView;

    closed spec fn view(&self) -> NetworkView {
        NetworkView {
            input: self.input@,
            reservoir: self.reservoir@,
            output: self.output@,
            feedback: optional_view(self.feedback),
            previous_output: self.previous_output@,
            output_function: self.output_function,
        }
    }
}

impl EchoStateNetwork {
    #[verifier::type_invariant]
    closed spec fn inv(self) -> bool {
        self@.wf()
    }

    /// Computes [`construction_plan`]: checks every construction parameter
    /// and says how much has to be drawn.
    pub fn validate(
        n_u: usize,
        n_y: usize,
        n_x: usize,
        density: Scalar,
        input_scale: Scalar,
        rho: Scalar,
        feedback_scale: Option<Scalar>,
        leaking_rate: Scalar,
    ) -> (r: Result<Plan, EsnError>)
        ensures
            r == construction_plan(
                n_u,
                n_y,
                n_x,
                density,
                input_scale,
                rho,
                feedback_scale,
                leaking_rate,
            ),
    {
        let pairs = Reservoir::validate(n_x, density, rho, leaking_rate)?;
        Projection::check_scale(input_scale)?;
        let input_weights = Projection::element_count(n_x, n_u)?;
        let output_weights = Projection::element_count(n_y, n_x)?;
        let feedback_weights = match feedback_scale {
            Some(scale) => {
                Projection::check_scale(scale)?;
                Some(Projection::element_count(n_x, n_y)?)
            },
            None => None,
        };
        Ok(Plan { pairs, input_weights, output_weights, feedback_weights })
    }

    /// Puts a network together from its parts, with the reservoir at rest
    /// and a carried output of zeros.
    ///
    /// The reservoir sets the number of units `n_x`. Fails with
    /// `DimensionMismatch` when the input projection does not yield vectors
    /// of length `n_x`, when the output projection does not take them, or
    /// when a feedback projection does not lead from the outputs back to the
    /// units.
    pub fn new(
        input: Input,
        reservoir: Reservoir,
        output: Output,
        feedback: Option<Feedback>,
        output_function: OutputFunction,
    ) -> (r: Result<EchoStateNetwork, EsnError>)
        ensures
            match network_outcome(
                input@,
                reservoir@,
                output@,
                optional_view(feedback),
                output_function,
            ) {
                Err(e) => r == Err::<EchoStateNetwork, EsnError>(e),
                Ok(v) => r is Ok && r->Ok_0@ == v,
            },
            r is Ok ==> r->Ok_0@.wf(),
    {
        let n_x = reservoir.n_x();
        check_dimension(n_x, input.out_dim())?;
        check_dimension(n_x, output.in_dim())?;
        let n_y = output.out_dim();
        match &feedback {
            Some(f) => {
                f.weight().check_shape(n_x, n_y)?;
            },
            None => {},
        }
        let mut reservoir = reservoir;
        reservoir.reset_state();
        let previous_output = zeros(n_y);
        Ok(EchoStateNetwork { input, reservoir, output, feedback, previous_output, output_function })
    }

    /// The length of the input vectors.
    pub fn n_u(&self) -> (r: usize)
        ensures
            r == self@.n_u(),
            self@.wf(),
    {
        proof {
            use_type_invariant(self);
        }
        self.input.in_dim()
    }

    /// The number of reservoir units.
    pub fn n_x(&self) -> (r: usize)
        ensures
            r == self@.n_x(),
            self@.wf(),
    {
        proof {
            use_type_invariant(self);
        }
        self.reservoir.n_x()
    }

    /// The length of the output vectors.
    pub fn n_y(&self) -> (r: usize)
        ensures
            r == self@.n_y(),
            self@.wf(),
    {
        proof {
            use_type_invariant(self);
        }
        self.output.out_dim()
    }

    /// The input projection.
    pub fn input(&self) -> (r: &Input)
        ensures
            r@ == self@.input,
            self@.wf(),
    {
        proof {
            use_type_invariant(self);
        }
        &self.input
    }

    /// The reservoir.
    pub fn reservoir(&self) -> (r: &Reservoir)
        ensures
            r@ == self@.reservoir,
            self@.wf(),
    {
        proof {
            use_type_invariant(self);
        }
        &self.reservoir
    }

    /// The output projection.
    pub fn output(&self) -> (r: &Output)
        ensures
            r@ == self@.output,
            self@.wf(),
    {
        proof {
            use_type_invariant(self);
        }
        &self.output
    }

    /// The feedback projection, where the network has one.
    pub fn feedback(&self) -> (r: Option<&Feedback>)
        ensures
            match r {
                Some(f) => self@.feedback == Some(f@),
                None => self@.feedback is None,
            },
            self@.wf(),
    {
        proof {
            use_type_invariant(self);
        }
        self.feedback.as_ref()
    }

    /// The output carried over from the last step.
    pub fn previous_output(&self) -> (r: &Vec<Scalar>)
        ensures
            r@ == self@.previous_output,
            self@.wf(),
    {
        proof {
            use_type_invariant(self);
        }
        &self.previous_output
    }

    /// The transform between the readout and the output.
    pub fn output_function(&self) -> (r: OutputFunction)
        ensures
            r == self@.output_function,
    {
        self.output_function
    }

    /// Accepts an input vector exactly when it has length `n_u`.
    pub fn check_input(&self, u: &Vec<Scalar>) -> (r: Result<(), EsnError>)
        ensures
            r == dimension_check(self@.n_u(), u@.len()),
            self@.wf(),
    {
        proof {
            use_type_invariant(self);
        }
        check_dimension(self.input.in_dim(), u.len())
    }

    /// Accepts a target vector exactly when it has length `n_y`.
    pub fn check_target(&self, d: &Vec<Scalar>) -> (r: Result<(), EsnError>)
        ensures
            r == dimension_check(self@.n_y(), d@.len()),
            self@.wf(),
    {
        proof {
            use_type_invariant(self);
        }
        check_dimension(self.output.out_dim(), d.len())
    }

    /// Checks a whole sequence of inputs before any of it is used, and gives
    /// its length.
    pub fn check_inputs(&self, inputs: &Vec<Vec<Scalar>>) -> (r: Result<usize, EsnError>)
        ensures
            self@.wf(),
            match inputs_check(self@.n_u(), inputs@, 0) {
                Err(e) => r == Err::<usize, EsnError>(e),
                Ok(_) => r == Ok::<usize, EsnError>(inputs.len()),
            },
    {
        proof {
            use_type_invariant(self);
        }
        let n_u = self.input.in_dim();
        let mut n: usize = 0;
        while n < inputs.len()
            invariant
                n <= inputs.len(),
                n_u == self@.n_u(),
                self@.wf(),
                inputs_check(n_u as nat, inputs@, 0) == inputs_check(n_u as nat, inputs@, n as int),
            decreases inputs.len() - n,
        {
            check_dimension(n_u, inputs[n].len())?;
            n += 1;
        }
        Ok(inputs.len())
    }

    /// Checks a whole teaching sequence before any of it is used, and gives
    /// its length.
    pub fn check_teaching(&self, inputs: &Vec<Vec<Scalar>>, targets: &Vec<Vec<Scalar>>) -> (r: Result<
        usize,
        EsnError,
    >)
        ensures
            self@.wf(),
            r == teaching_check(self@.n_u(), self@.n_y(), inputs@, targets@),
    {
        proof {
            use_type_invariant(self);
        }
        check_dimension(inputs.len(), targets.len())?;
        let n_u = self.input.in_dim();
        let n_y = self.output.out_dim();
        let mut n: usize = 0;
        while n < inputs.len()
            invariant
                n <= inputs.len(),
                inputs.len() == targets.len(),
                n_u == self@.n_u(),
                n_y == self@.n_y(),
                self@.wf(),
                samples_check(n_u as nat, n_y as nat, inputs@, targets@, 0) == samples_check(
                    n_u as nat,
                    n_y as nat,
                    inputs@,
                    targets@,
                    n as int,
                ),
            decreases inputs.len() - n,
        {
            check_dimension(n_u, inputs[n].len())?;
            check_dimension(n_y, targets[n].len())?;
            n += 1;
        }
        Ok(inputs.len())
    }

    /// Accepts the network for free-running generation, where each output is
    /// the next input: exactly when outputs and inputs have one length.
    pub fn check_generate(&self) -> (r: Result<(), EsnError>)
        ensures
            r == dimension_check(self@.n_u(), self@.n_y()),
            self@.wf(),
    {
        proof {
            use_type_invariant(self);
        }
        check_dimension(self.input.in_dim(), self.output.out_dim())
    }

    /// Ends a step: the reservoir takes the new state, and `output` is
    /// carried to the next step. In training the carried output is the
    /// target of the step; in prediction it is the output that the network
    /// gave.
    ///
    /// The state is checked first, then the output. On an error nothing
    /// changes.
    pub fn advance(&mut self, state: Vec<Scalar>, output: Vec<Scalar>) -> (r: Result<(), EsnError>)
        ensures
            r == sample_check(old(self)@.n_x(), old(self)@.n_y(), state@.len(), output@.len()),
            r is Ok ==> final(self)@ == old(self)@.advanced(state@, output@),
            r is Err ==> final(self)@ == old(self)@,
            final(self)@.wf(),
    {
        proof {
            use_type_invariant(&*self);
        }
        check_dimension(self.reservoir.n_x(), state.len())?;
        check_dimension(self.output.out_dim(), output.len())?;
        self.reservoir.put_state(state);
        self.previous_output = output;
        Ok(())
    }

    /// Overwrites the output weights with the outcome of a fit.
    ///
    /// A matrix that is not `n_y` by `n_x` is refused with
    /// `DimensionMismatch` and the network keeps its weights.
    pub fn set_output_weight(&mut self, weight: Matrix) -> (r: Result<(), EsnError>)
        ensures
            r == shape_check(weight@, old(self)@.n_y(), old(self)@.n_x()),
            r is Ok ==> final(self)@ == (NetworkView { output: weight@, ..old(self)@ }),
            r is Err ==> final(self)@ == old(self)@,
            final(self)@.wf(),
    {
        proof {
            use_type_invariant(&*self);
        }
        self.output.set_weight(weight)
    }

    /// Puts the reservoir to rest and zeroes the carried output, as at the
    /// start of a sequence that has nothing to do with the last one.
    pub fn reset_state(&mut self)
        ensures
            final(self)@ == old(self)@.reset(),
            final(self)@.wf(),
    {
        proof {
            use_type_invariant(&*self);
        }
        let rest = zeros(self.reservoir.n_x());
        self.reservoir.put_state(rest);
        self.previous_output = zeros(self.output.out_dim());
    }
}

} // verus!

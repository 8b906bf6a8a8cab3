//! The reservoir: a square weight matrix, a state vector, a leaking rate and
//! an activation.

use vstd::prelude::*;
use crate::error::check_dimension;
use crate::error::dimension_check;
use crate::error::EsnError;
use crate::matrix::copy_scalars;
use crate::matrix::shape_check;
use crate::matrix::Matrix;
use crate::matrix::MatrixView;
use crate::scalar::Scalar;
use crate::scalar::ONE_BITS;
use crate::scalar::SIGN_BIT;
use crate::topology::adjacency;
use crate::topology::check_edges;
use crate::topology::count_pairs;
use crate::topology::edge_budget;
use crate::topology::linked;
use crate::topology::pair_budget;
use crate::topology::random_adjacency;
use crate::topology::simple_edges;

verus! {

/// The elementwise function that the state recurrence applies.
#[derive(Debug, Clone, Copy, PartialEq, Eq, Structural)]
pub enum Activation {
    /// The hyperbolic tangent.
    Tanh,
    /// The identity.
    Identity,
}

impl Default for Activation {
    fn default() -> (r: Activation)
        ensures
            r == Activation::Tanh,
    {
        Activation::Tanh
    }
}

/// The state vector of a reservoir of `n` units at rest.
pub open spec fn rest_state(n: nat) -> Seq<Scalar> {
    Seq::new(n, |k: int| Scalar { bits: 0 })
}

/// What a [`Reservoir`] stands for.
pub struct ReservoirView {
    pub weight: MatrixView,
    pub state: Seq<Scalar>,
    pub leaking_rate: Scalar,
    pub activation: Activation,
}

impl ReservoirView {
    /// The weight is a square matrix over at least two units, the state has
    /// one entry for each unit, and the leaking rate lies in `[0, 1]`.
    pub open spec fn wf(self) -> bool {
        &&& self.weight.wf()
        &&& self.weight.rows == self.weight.cols
        &&& self.weight.rows >= 2
        &&& self.state.len() == self.weight.rows
        &&& self.leaking_rate.unit_interval()
    }

    /// The number of units.
    pub open spec fn n_x(self) -> nat {
        self.weight.rows
    }

    /// The reservoir as it is right after construction: at rest.
    pub open spec fn fresh(weight: MatrixView, leaking_rate: Scalar, activation: Activation) -> ReservoirView {
        ReservoirView { weight, state: rest_state(weight.rows), leaking_rate, activation }
    }

    /// The reservoir with its state put to rest and nothing else changed.
    pub open spec fn reset(self) -> ReservoirView {
        ReservoirView { state: rest_state(self.weight.rows), ..self }
    }

    /// The reservoir with another state and nothing else changed.
    pub open spec fn with_state(self, state: Seq<Scalar>) -> ReservoirView {
        ReservoirView { state, ..self }
    }

    /// Resetting a reservoir gives the freshly constructed reservoir of the
    /// same weight, leaking rate and activation, whatever state it was in:
    /// from there on the two cannot be told apart.
    pub proof fn reset_restores_fresh(self)
        ensures
            self.reset() == ReservoirView::fresh(self.weight, self.leaking_rate, self.activation),
            self.wf() ==> self.reset().wf(),
            self.reset().reset() == self.reset(),
    {
    }
}

/// The result of checking the parameters that a reservoir is built from: the
/// number of unit pairs, among which the connections are drawn.
///
/// The parameters are refused with `InvalidParameter` when there are fewer
/// than two units or more than a square matrix can hold, when the density or
/// the leaking rate lies outside `[0, 1]`, or when the spectral radius is not
/// a finite number above zero.
pub open spec fn reservoir_plan(n_x: usize, density: Scalar, rho: Scalar, leaking_rate: Scalar) -> Result<
    usize,
    EsnError,
> {
    if !density.unit_interval() || !rho.positive() || !leaking_rate.unit_interval() {
        Err(EsnError::InvalidParameter)
    } else {
        pair_budget(n_x)
    }
}

/// The result of checking the number of connections asked of a reservoir of
/// `n_x` units. Without any connection the weight matrix is zero and so is
/// its spectral radius, whatever weights are drawn: that is known before
/// anything is drawn, and no eigenvalue need be computed to see it.
pub open spec fn wiring_check(n_x: usize, connected: usize) -> Result<(), EsnError> {
    match edge_budget(n_x, connected) {
        Err(e) => Err(e),
        Ok(_) => if connected == 0 {
            Err(EsnError::DegenerateReservoir)
        } else {
            Ok(())
        },
    }
}

/// The product of an adjacency entry and a finite weight: the weight itself
/// under a one, and under a zero the zero that has the sign of the weight.
pub open spec fn masked_entry(mask: Scalar, weight: Scalar) -> Scalar {
    if mask.bits == ONE_BITS {
        weight
    } else if weight.sign_bit() {
        Scalar { bits: SIGN_BIT }
    } else {
        Scalar { bits: 0 }
    }
}

/// Whether every entry of the matrix is positive zero or one.
pub open spec fn is_mask(m: MatrixView) -> bool {
    forall|k: int|
        0 <= k < m.entries.len() ==> (#[trigger] m.entries[k]).bits == 0 || m.entries[k].bits
            == ONE_BITS
}

/// The elementwise product of a mask and a matrix of weights.
pub open spec fn masked(mask: MatrixView, weights: MatrixView) -> MatrixView {
    MatrixView {
        rows: mask.rows,
        cols: mask.cols,
        entries: Seq::new(mask.entries.len(), |k: int| masked_entry(mask.entries[k], weights.entries[k])),
    }
}

/// The result of putting drawn weights on the connections of a reservoir.
///
/// The weights must have the shape of the mask, or the product is refused
/// with `DimensionMismatch`; the mask must hold zeros and ones only and the
/// weights finite numbers only, or it is refused with `InvalidParameter`.
pub open spec fn masking_outcome(mask: MatrixView, weights: MatrixView) -> Result<MatrixView, EsnError> {
    match shape_check(weights, mask.rows, mask.cols) {
        Err(e) => Err(e),
        Ok(_) => if is_mask(mask) && weights.finite() {
            Ok(masked(mask, weights))
        } else {
            Err(EsnError::InvalidParameter)
        },
    }
}

/// On the adjacency matrix of a graph, masking keeps the weight between two
/// linked units as it was drawn and leaves a zero between any other two.
pub proof fn masked_weights_follow_the_graph(
    n: nat,
    edges: Seq<(usize, usize)>,
    weights: MatrixView,
    i: int,
    j: int,
)
    requires
        weights.wf(),
        weights.has_shape(n, n),
        0 <= i < n,
        0 <= j < n,
    ensures
        is_mask(adjacency(n, edges)),
        masked(adjacency(n, edges), weights).wf(),
        linked(edges, i, j) ==> masked(adjacency(n, edges), weights).at(i, j) == weights.at(i, j),
        !linked(edges, i, j) ==> masked(adjacency(n, edges), weights).at(i, j).zero_valued(),
{
    let adj = adjacency(n, edges);
    crate::topology::adjacency_at(n, edges, i, j);
    adj.offset_in_bounds(i, j);
}

/// The connections that a weight matrix shows above its diagonal: the pairs
/// of units between which the entry is not zero.
pub open spec fn upper_support(m: MatrixView) -> Set<(usize, usize)> {
    Set::new(
        |p: (usize, usize)|
            p.0 < p.1 < m.cols && m.rows == m.cols && !m.at(p.0 as int, p.1 as int).zero_valued(),
    )
}

/// The density bounds the sparsity: weights put on the connections of a
/// simple graph are zero wherever the graph has no edge, so that the matrix
/// shows no more connections than the graph has edges.
pub proof fn masked_support_within_edges(n: nat, edges: Seq<(usize, usize)>, weights: MatrixView)
    requires
        simple_edges(n, edges),
        weights.wf(),
        weights.has_shape(n, n),
    ensures
        upper_support(masked(adjacency(n, edges), weights)).subset_of(edges.to_set()),
        upper_support(masked(adjacency(n, edges), weights)).finite(),
        upper_support(masked(adjacency(n, edges), weights)).len() <= edges.len(),
{
    let m = masked(adjacency(n, edges), weights);
    let support = upper_support(m);
    assert forall|p: (usize, usize)| support.contains(p) implies edges.to_set().contains(p) by {
        masked_weights_follow_the_graph(n, edges, weights, p.0 as int, p.1 as int);
        assert(linked(edges, p.0 as int, p.1 as int));
        let k = choose|k: int|
            0 <= k < edges.len() && crate::topology::joins(#[trigger] edges[k], p.0 as int, p.1 as int);
        assert(edges[k].0 < edges[k].1);
        assert(edges[k] == p);
    }
    vstd::seq_lib::seq_to_set_is_finite(edges);
    vstd::set_lib::lemma_len_subset(support, edges.to_set());
    edges.unique_seq_to_set();
}

/// The running maximum of the first `k` moduli: it starts at zero and moves
/// to each modulus that it is not greater than.
pub open spec fn running_max(moduli: Seq<Scalar>, k: nat) -> Scalar
    decreases k,
{
    if k == 0 {
        Scalar { bits: 0 }
    } else {
        let before = running_max(moduli, (k - 1) as nat);
        if before.greater(moduli[k - 1]) {
            before
        } else {
            moduli[k - 1]
        }
    }
}

/// The spectral radius that belongs to the moduli of the eigenvalues: the
/// largest of them, or `DegenerateReservoir` when that is zero, or not a
/// finite number above zero, which leaves nothing to rescale.
pub open spec fn radius_outcome(moduli: Seq<Scalar>) -> Result<Scalar, EsnError> {
    let radius = running_max(moduli, moduli.len());
    if radius.positive() {
        Ok(radius)
    } else {
        Err(EsnError::DegenerateReservoir)
    }
}

/// Among moduli that are numbers, none of them negative, the running maximum
/// is at least as large as each of them, and it is one of them unless there
/// are none.
pub proof fn running_max_is_largest(moduli: Seq<Scalar>, k: nat)
    requires
        k <= moduli.len(),
        forall|i: int| 0 <= i < k ==> !(#[trigger] moduli[i]).nan() && moduli[i].rank() >= 0,
    ensures
        !running_max(moduli, k).nan(),
        forall|i: int| 0 <= i < k ==> running_max(moduli, k).rank() >= (#[trigger] moduli[i]).rank(),
        k == 0 ==> running_max(moduli, k) == (Scalar { bits: 0 }),
        k > 0 ==> exists|i: int| 0 <= i < k && running_max(moduli, k) == #[trigger] moduli[i],
    decreases k,
{
    if k > 0 {
        running_max_is_largest(moduli, (k - 1) as nat);
        let before = running_max(moduli, (k - 1) as nat);
        let last = moduli[k - 1];
        if before.greater(last) {
            assert(k - 1 > 0);
            let i = choose|i: int| 0 <= i < k - 1 && before == #[trigger] moduli[i];
            assert(running_max(moduli, k) == moduli[i]);
        } else {
            assert(running_max(moduli, k) == moduli[k - 1]);
        }
    }
}

/// The result of building a reservoir from its scaled weight matrix.
pub open spec fn reservoir_outcome(weight: MatrixView, leaking_rate: Scalar, activation: Activation) -> Result<
    ReservoirView,
    EsnError,
> {
    if dimension_check(weight.rows, weight.cols) is Err {
        Err(dimension_check(weight.rows, weight.cols)->Err_0)
    } else if weight.rows < 2 || !leaking_rate.unit_interval() {
        Err(EsnError::InvalidParameter)
    } else {
        Ok(ReservoirView::fresh(weight, leaking_rate, activation))
    }
}

/// A reservoir of leaky-integrator units.
#[derive(Debug)]
pub struct Reservoir {
    weight: Matrix,
    state: Vec<Scalar>,
    leaking_rate: Scalar,
    activation: Activation,
}

impl View for Reservoir {
    type V = ReservoirView;

    closed spec fn view(&self) -> ReservoirView {
        ReservoirView {
            weight: self.weight@,
            state: self.state@,
            leaking_rate: self.leaking_rate,
            activation: self.activation,
        }
    }
}

/// A vector of `n` positive zeros.
pub fn zeros(n: usize) -> (r: Vec<Scalar>)
    ensures
        r@ == rest_state(n as nat),
{
    let mut out: Vec<Scalar> = Vec::new();
    let mut k: usize = 0;
    while k < n
        invariant
            k <= n,
            out@.len() == k,
            forall|p: int| 0 <= p < k ==> out@[p] == (Scalar { bits: 0 }),
        decreases n - k,
    {
        out.push(Scalar::zero());
        k += 1;
    }
    assert(out@ =~= rest_state(n as nat));
    out
}

impl Reservoir {
    #[verifier::type_invariant]
    closed spec fn inv(self) -> bool {
        self@.wf()
    }

    /// Computes [`reservoir_plan`], before anything random is drawn.
    pub fn validate(n_x: usize, density: Scalar, rho: Scalar, leaking_rate: Scalar) -> (r: Result<
        usize,
        EsnError,
    >)
        ensures
            r == reservoir_plan(n_x, density, rho, leaking_rate),
    {
        if !density.is_unit_interval() || !rho.is_positive() || !leaking_rate.is_unit_interval() {
            return Err(EsnError::InvalidParameter);
        }
        count_pairs(n_x)
    }

    /// Lays out the connections of a reservoir: the adjacency matrix of a
    /// random simple graph on `n_x` units with exactly `connected` edges,
    /// drawn from a generator seeded with `seed`.
    ///
    /// Fails with `InvalidParameter` when the request is out of range (see
    /// [`edge_budget`]) and with `DegenerateReservoir` when no connection is
    /// asked for.
    pub fn wiring(n_x: usize, connected: usize, seed: u64) -> (r: Result<Matrix, EsnError>)
        ensures
            match wiring_check(n_x, connected) {
                Err(e) => r == Err::<Matrix, EsnError>(e),
                Ok(_) => r is Ok && exists|edges: Seq<(usize, usize)>|
                    edges.len() == connected && simple_edges(n_x as nat, edges) && r->Ok_0@
                        == #[trigger] adjacency(n_x as nat, edges),
            },
            r is Ok ==> r->Ok_0@.wf(),
    {
        check_edges(n_x, connected)?;
        if connected == 0 {
            return Err(EsnError::DegenerateReservoir);
        }
        random_adjacency(n_x, connected, seed)
    }

    /// Puts drawn weights on the connections laid out by an adjacency
    /// matrix: their elementwise product, taken on the encodings, where a one
    /// keeps the weight and a zero leaves the zero of the weight's sign. See
    /// [`masking_outcome`] for what is refused.
    pub fn connect(mask: &Matrix, weights: &Matrix) -> (r: Result<Matrix, EsnError>)
        ensures
            mask@.wf(),
            match masking_outcome(mask@, weights@) {
                Err(e) => r == Err::<Matrix, EsnError>(e),
                Ok(m) => r is Ok && r->Ok_0@ == m,
            },
            r is Ok ==> r->Ok_0@.wf(),
    {
        let m = mask.as_vec();
        let w = weights.as_vec();
        weights.check_shape(mask.nrows(), mask.ncols())?;
        let mut out: Vec<Scalar> = Vec::new();
        let mut k: usize = 0;
        while k < m.len()
            invariant
                k <= m.len(),
                m.len() == w.len(),
                mask@.wf(),
                weights@.wf(),
                shape_check(weights@, mask@.rows, mask@.cols) is Ok,
                m@ == mask@.entries,
                w@ == weights@.entries,
                out@.len() == k,
                forall|p: int| 0 <= p < k ==> (#[trigger] m@[p]).bits == 0 || m@[p].bits == ONE_BITS,
                forall|p: int| 0 <= p < k ==> (#[trigger] w@[p]).finite(),
                forall|p: int| 0 <= p < k ==> out@[p] == masked_entry(m@[p], w@[p]),
            decreases m.len() - k,
        {
            let a = m[k];
            let b = w[k];
            if (a.to_bits() != 0 && a.to_bits() != ONE_BITS) || !b.is_finite() {
                assert(!(mask@.entries[k as int].bits == 0 || mask@.entries[k as int].bits == ONE_BITS)
                    || !weights@.entries[k as int].finite());
                return Err(EsnError::InvalidParameter);
            }
            let entry = if a.to_bits() == ONE_BITS {
                b
            } else if b.to_bits() >= SIGN_BIT {
                Scalar::from_bits(SIGN_BIT)
            } else {
                Scalar::zero()
            };
            out.push(entry);
            k += 1;
        }
        assert(out@ =~= masked(mask@, weights@).entries);
        Matrix::from_vec(mask.nrows(), mask.ncols(), out)
    }

    /// Computes [`radius_outcome`]: the spectral radius of the unscaled weight
    /// matrix from the moduli of its eigenvalues.
    pub fn spectral_radius(moduli: &Vec<Scalar>) -> (r: Result<Scalar, EsnError>)
        ensures
            r == radius_outcome(moduli@),
    {
        let mut radius = Scalar::zero();
        let mut k: usize = 0;
        while k < moduli.len()
            invariant
                k <= moduli.len(),
                radius == running_max(moduli@, k as nat),
            decreases moduli.len() - k,
        {
            if !radius.gt(moduli[k]) {
                radius = moduli[k];
            }
            k += 1;
        }
        if radius.is_positive() {
            Ok(radius)
        } else {
            Err(EsnError::DegenerateReservoir)
        }
    }

    /// Builds a reservoir at rest from its weight matrix.
    ///
    /// Fails with `DimensionMismatch` when the matrix is not square, and with
    /// `InvalidParameter` when it has fewer than two units or the leaking
    /// rate lies outside `[0, 1]`.
    pub fn new(weight: Matrix, leaking_rate: Scalar, activation: Activation) -> (r: Result<
        Reservoir,
        EsnError,
    >)
        ensures
            match reservoir_outcome(weight@, leaking_rate, activation) {
                Err(e) => r == Err::<Reservoir, EsnError>(e),
                Ok(v) => r is Ok && r->Ok_0@ == v,
            },
            r is Ok ==> r->Ok_0@.wf(),
    {
        let n = weight.nrows();
        weight.check_shape(n, n)?;
        if n < 2 || !leaking_rate.is_unit_interval() {
            return Err(EsnError::InvalidParameter);
        }
        let state = zeros(n);
        Ok(Reservoir { weight, state, leaking_rate, activation })
    }

    /// The number of units.
    pub fn n_x(&self) -> (r: usize)
        ensures
            r == self@.n_x(),
            self@.wf(),
    {
        proof {
            use_type_invariant(self);
        }
        self.weight.nrows()
    }

    /// The weight matrix.
    pub fn weight(&self) -> (r: &Matrix)
        ensures
            r@ == self@.weight,
            self@.wf(),
    {
        proof {
            use_type_invariant(self);
        }
        &self.weight
    }

    /// The state vector.
    pub fn state(&self) -> (r: &Vec<Scalar>)
        ensures
            r@ == self@.state,
            self@.wf(),
    {
        proof {
            use_type_invariant(self);
        }
        &self.state
    }

    /// The leaking rate.
    pub fn leaking_rate(&self) -> (r: Scalar)
        ensures
            r == self@.leaking_rate,
            self@.wf(),
    {
        proof {
            use_type_invariant(self);
        }
        self.leaking_rate
    }

    /// The activation.
    pub fn activation(&self) -> (r: Activation)
        ensures
            r == self@.activation,
    {
        self.activation
    }

    /// Accepts a drive vector exactly when it has one entry for each unit.
    pub fn check_drive(&self, x_in: &Vec<Scalar>) -> (r: Result<(), EsnError>)
        ensures
            r == dimension_check(self@.n_x(), x_in@.len()),
            self@.wf(),
    {
        proof {
            use_type_invariant(self);
        }
        check_dimension(self.weight.nrows(), x_in.len())
    }

    /// Puts the state to rest.
    pub fn reset_state(&mut self)
        ensures
            final(self)@ == old(self)@.reset(),
            final(self)@.wf(),
    {
        let rest = zeros(self.n_x());
        self.put_state(rest);
    }

    /// Replaces the state by the outcome of a step of the recurrence.
    ///
    /// A vector of the wrong length is refused with `DimensionMismatch` and
    /// the state stays as it was.
    pub fn set_state(&mut self, state: Vec<Scalar>) -> (r: Result<(), EsnError>)
        ensures
            r == dimension_check(old(self)@.n_x(), state@.len()),
            r is Ok ==> final(self)@ == old(self)@.with_state(state@),
            r is Err ==> final(self)@ == old(self)@,
            final(self)@.wf(),
    {
        check_dimension(self.n_x(), state.len())?;
        self.put_state(state);
        Ok(())
    }

    /// Replaces the state by a vector of the right length.
    pub(crate) fn put_state(&mut self, state: Vec<Scalar>)
        requires
            state@.len() == old(self)@.n_x(),
        ensures
            final(self)@ == old(self)@.with_state(state@),
            final(self)@.wf(),
        no_unwind
    {
        proof {
            use_type_invariant(&*self);
        }
        self.state = state;
    }
}

impl Clone for Reservoir {
    fn clone(&self) -> (r: Reservoir)
        ensures
            r@ == self@,
            r@.wf(),
    {
        proof {
            use_type_invariant(self);
        }
        Reservoir {
            weight: self.weight.clone(),
            state: copy_scalars(&self.state),
            leaking_rate: self.leaking_rate,
            activation: self.activation,
        }
    }
}

} // verus!

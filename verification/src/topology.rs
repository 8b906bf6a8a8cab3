//! The wiring of a reservoir: a random simple graph and its adjacency matrix.

use vstd::prelude::*;
use crate::error::EsnError;
use crate::matrix::entry_count;
use crate::matrix::Matrix;
use crate::matrix::MatrixView;
use crate::scalar::Scalar;
use crate::scalar::ONE_BITS;

verus! {

/// The number of unordered pairs of distinct nodes among `n` nodes.
pub open spec fn pair_count(n: nat) -> nat {
    if n < 2 {
        0
    } else {
        (n * (n - 1) / 2) as nat
    }
}

/// The result of sizing a reservoir of `n` units: the number of node pairs, or
/// `InvalidParameter` when there are fewer than two units or more than an
/// `n` by `n` matrix can hold.
pub open spec fn pair_budget(n: usize) -> Result<usize, EsnError> {
    if n < 2 || n * n > usize::MAX {
        Err(EsnError::InvalidParameter)
    } else {
        Ok(pair_count(n as nat) as usize)
    }
}

/// Computes [`pair_budget`].
pub fn count_pairs(n: usize) -> (r: Result<usize, EsnError>)
    ensures
        r == pair_budget(n),
{
    if n < 2 {
        return Err(EsnError::InvalidParameter);
    }
    match n.checked_mul(n) {
        None => Err(EsnError::InvalidParameter),
        Some(_) => {
            assert(0 <= n * (n - 1) <= n * n) by (nonlinear_arith)
                requires
                    n >= 2,
            ;
            Ok(n * (n - 1) / 2)
        },
    }
}

/// Whether the edge list describes a simple graph on `n` nodes: every edge
/// runs from a smaller to a larger node, and no edge occurs twice.
pub open spec fn simple_edges(n: nat, edges: Seq<(usize, usize)>) -> bool {
    &&& forall|k: int| 0 <= k < edges.len() ==> (#[trigger] edges[k]).0 < edges[k].1 < n
    &&& edges.no_duplicates()
}

/// Whether every endpoint of the edge list is a node of a graph on `n` nodes.
pub open spec fn edges_in_range(n: nat, edges: Seq<(usize, usize)>) -> bool {
    forall|k: int| 0 <= k < edges.len() ==> (#[trigger] edges[k]).0 < n && edges[k].1 < n
}

/// Whether the edge joins the nodes `i` and `j`, in either direction.
pub open spec fn joins(e: (usize, usize), i: int, j: int) -> bool {
    (e.0 == i && e.1 == j) || (e.0 == j && e.1 == i)
}

/// Whether some edge of the list joins the nodes `i` and `j`.
pub open spec fn linked(edges: Seq<(usize, usize)>, i: int, j: int) -> bool {
    exists|k: int| 0 <= k < edges.len() && joins(#[trigger] edges[k], i, j)
}

/// The entry that the adjacency matrix holds for a pair of nodes: one where
/// they are linked, zero where they are not.
pub open spec fn link_value(edges: Seq<(usize, usize)>, i: int, j: int) -> Scalar {
    if linked(edges, i, j) {
        Scalar { bits: ONE_BITS }
    } else {
        Scalar { bits: 0 }
    }
}

/// The symmetric adjacency matrix of the graph on `n` nodes with the given edges.
pub open spec fn adjacency(n: nat, edges: Seq<(usize, usize)>) -> MatrixView {
    MatrixView::from_fn(n, n, |i: int, j: int| link_value(edges, i, j))
}

/// The edges that an adjacency matrix shows above its diagonal.
pub open spec fn upper_links(m: MatrixView) -> Set<(usize, usize)> {
    Set::new(
        |p: (usize, usize)|
            p.0 < p.1 < m.cols && m.rows == m.cols && m.at(p.0 as int, p.1 as int) == (Scalar {
                bits: ONE_BITS,
            }),
    )
}

/// An adjacency matrix is well formed and holds, at each position, the link
/// value of the two nodes.
pub proof fn adjacency_at(n: nat, edges: Seq<(usize, usize)>, i: int, j: int)
    requires
        0 <= i < n,
        0 <= j < n,
    ensures
        adjacency(n, edges).wf(),
        adjacency(n, edges).at(i, j) == link_value(edges, i, j),
{
    MatrixView::from_fn_at(n, n, |i: int, j: int| link_value(edges, i, j), i, j);
}

/// An adjacency matrix is symmetric.
pub proof fn adjacency_symmetric(n: nat, edges: Seq<(usize, usize)>, i: int, j: int)
    requires
        0 <= i < n,
        0 <= j < n,
    ensures
        adjacency(n, edges).at(i, j) == adjacency(n, edges).at(j, i),
{
    adjacency_at(n, edges, i, j);
    adjacency_at(n, edges, j, i);
    if linked(edges, i, j) {
        let k = choose|k: int| 0 <= k < edges.len() && joins(#[trigger] edges[k], i, j);
        assert(joins(edges[k], j, i));
    }
    if linked(edges, j, i) {
        let k = choose|k: int| 0 <= k < edges.len() && joins(#[trigger] edges[k], j, i);
        assert(joins(edges[k], i, j));
    }
}

/// The adjacency matrix depends on which edges the list holds, and neither
/// on their order nor on how often one occurs.
pub proof fn adjacency_ignores_order(n: nat, a: Seq<(usize, usize)>, b: Seq<(usize, usize)>)
    requires
        a.to_set() == b.to_set(),
    ensures
        adjacency(n, a) == adjacency(n, b),
{
    let left = adjacency(n, a);
    let right = adjacency(n, b);
    assert forall|i: int, j: int| left.in_range(i, j) implies left.at(i, j) == right.at(i, j) by {
        adjacency_at(n, a, i, j);
        adjacency_at(n, b, i, j);
        if linked(a, i, j) {
            let k = choose|k: int| 0 <= k < a.len() && joins(#[trigger] a[k], i, j);
            assert(a.to_set().contains(a[k]));
            assert(b.to_set().contains(a[k]));
            let w = choose|w: int| 0 <= w < b.len() && b[w] == a[k];
            assert(joins(b[w], i, j));
        }
        if linked(b, i, j) {
            let k = choose|k: int| 0 <= k < b.len() && joins(#[trigger] b[k], i, j);
            assert(b.to_set().contains(b[k]));
            assert(a.to_set().contains(b[k]));
            let w = choose|w: int| 0 <= w < a.len() && a[w] == b[k];
            assert(joins(a[w], i, j));
        }
    }
    assert(left.wf() && right.wf()) by {
        if n > 0 {
            adjacency_at(n, a, 0, 0);
            adjacency_at(n, b, 0, 0);
        }
    }
    left.equal_by_positions(right);
}

/// The adjacency matrix of a simple graph has a zero diagonal.
pub proof fn adjacency_no_loops(n: nat, edges: Seq<(usize, usize)>, i: int)
    requires
        simple_edges(n, edges),
        0 <= i < n,
    ensures
        adjacency(n, edges).at(i, i) == (Scalar { bits: 0 }),
{
    adjacency_at(n, edges, i, i);
    if linked(edges, i, i) {
        let k = choose|k: int| 0 <= k < edges.len() && joins(#[trigger] edges[k], i, i);
        assert(edges[k].0 < edges[k].1);
    }
}

/// The adjacency matrix of a simple graph shows, above its diagonal, exactly
/// the edges of the graph, each once.
pub proof fn adjacency_edge_count(n: nat, edges: Seq<(usize, usize)>)
    requires
        simple_edges(n, edges),
    ensures
        upper_links(adjacency(n, edges)) == edges.to_set(),
        upper_links(adjacency(n, edges)).len() == edges.len(),
{
    let adj = adjacency(n, edges);
    assert forall|p: (usize, usize)| upper_links(adj).contains(p) <==> edges.to_set().contains(
        p,
    ) by {
        if upper_links(adj).contains(p) {
            adjacency_at(n, edges, p.0 as int, p.1 as int);
            assert(linked(edges, p.0 as int, p.1 as int));
            let k = choose|k: int|
                0 <= k < edges.len() && joins(#[trigger] edges[k], p.0 as int, p.1 as int);
            assert(edges[k].0 < edges[k].1);
            assert(edges[k] == p);
        }
        if edges.to_set().contains(p) {
            let k = choose|k: int| 0 <= k < edges.len() && edges[k] == p;
            assert(joins(edges[k], p.0 as int, p.1 as int));
            adjacency_at(n, edges, p.0 as int, p.1 as int);
        }
    }
    assert(upper_links(adj) =~= edges.to_set());
    edges.unique_seq_to_set();
}

/// `rand::rngs::StdRng`, the generator that the graphs are drawn from, as a
/// value that is carried and never looked into.
#[verifier::external_type_specification]
#[verifier::external_body]
pub struct ExStdRng(rand::rngs::StdRng);

/// Seeds a `rand::rngs::StdRng` through `rand::SeedableRng::seed_from_u64`.
/// Nothing is claimed of the numbers that the generator will give.
#[verifier::external_body]
fn seeded_generator(seed: u64) -> rand::rngs::StdRng {
    <rand::rngs::StdRng as rand::SeedableRng>::seed_from_u64(seed)
}

/// Draws a random simple graph through `petgraph_gen::random_gnm_graph` and
/// hands out its edges as pairs of node numbers.
///
/// The generator returns an undirected graph on `n` nodes with exactly `m`
/// edges; each of its three algorithms adds an edge only from a smaller to a
/// larger node and adds no pair twice. It panics when `m` exceeds the number
/// of node pairs, and, through the uniform distribution it builds, when `m`
/// is zero on a graph of two or three nodes; its graph counts nodes and
/// edges in 32 bits.
#[verifier::external_body]
fn sample_edges(rng: &mut rand::rngs::StdRng, n: usize, m: usize) -> (edges: Vec<(usize, usize)>)
    requires
        n * n <= usize::MAX,
        1 <= m <= pair_count(n as nat),
        m <= u32::MAX,
    ensures
        edges@.len() == m,
        simple_edges(n as nat, edges@),
{
    let graph: petgraph::graph::UnGraph<(), ()> = petgraph_gen::random_gnm_graph(rng, n, m);
    graph.raw_edges().iter().map(|e| (e.source().index(), e.target().index())).collect()
}

/// The result of checking a request for `m` edges among `n` nodes.
pub open spec fn edge_budget(n: usize, m: usize) -> Result<(), EsnError> {
    match pair_budget(n) {
        Err(e) => Err(e),
        Ok(pairs) => if m > pairs || m > u32::MAX {
            Err(EsnError::InvalidParameter)
        } else {
            Ok(())
        },
    }
}

/// Computes [`edge_budget`].
pub fn check_edges(n: usize, m: usize) -> (r: Result<(), EsnError>)
    ensures
        r == edge_budget(n, m),
{
    let pairs = count_pairs(n)?;
    if m > pairs || m > 0xFFFF_FFFF {
        Err(EsnError::InvalidParameter)
    } else {
        Ok(())
    }
}

/// Draws the edges of a random simple graph on `n` nodes with exactly `m`
/// edges, from a generator seeded with `seed`.
///
/// Fails with `InvalidParameter` when `n` is below two, when `m` exceeds the
/// number of node pairs, or when the sizes exceed what the matrix or the
/// generator can count. A request for no edges is answered without drawing.
pub fn random_edges(n: usize, m: usize, seed: u64) -> (r: Result<Vec<(usize, usize)>, EsnError>)
    ensures
        match edge_budget(n, m) {
            Err(e) => r == Err::<Vec<(usize, usize)>, EsnError>(e),
            Ok(_) => r is Ok && r->Ok_0@.len() == m && simple_edges(n as nat, r->Ok_0@),
        },
{
    check_edges(n, m)?;
    if m == 0 {
        Ok(Vec::new())
    } else {
        let mut rng = seeded_generator(seed);
        Ok(sample_edges(&mut rng, n, m))
    }
}

/// The result of building an adjacency matrix from an edge list.
pub open spec fn adjacency_outcome(n: usize, edges: Seq<(usize, usize)>) -> Result<
    MatrixView,
    EsnError,
> {
    if entry_count(n, n) is Err || !edges_in_range(n as nat, edges) {
        Err(EsnError::InvalidParameter)
    } else {
        Ok(adjacency(n as nat, edges))
    }
}

/// Builds the symmetric adjacency matrix of the graph on `n` nodes with the
/// given edges: one at `(i, j)` and `(j, i)` for every edge that joins `i`
/// and `j`, zero elsewhere.
///
/// Fails with `InvalidParameter` when an endpoint is not a node, or when the
/// matrix would have more entries than a `usize` can count.
pub fn graph_to_adjacency_matrix(n: usize, edges: &Vec<(usize, usize)>) -> (r: Result<
    Matrix,
    EsnError,
>)
    ensures
        match adjacency_outcome(n, edges@) {
            Err(e) => r == Err::<Matrix, EsnError>(e),
            Ok(m) => r is Ok && r->Ok_0@ == m,
        },
        r is Ok ==> r->Ok_0@.wf(),
{
    let mut matrix = Matrix::filled(n, n, Scalar::zero())?;
    let ghost all = edges@;
    proof {
        assert forall|i: int, j: int| 0 <= i < n && 0 <= j < n implies matrix@.at(i, j)
            == link_value(all.take(0), i, j) by {
            MatrixView::filled_and_diagonal_at(n as nat, n as nat, Scalar { bits: 0 }, i, j);
        }
    }
    let mut k: usize = 0;
    while k < edges.len()
        invariant
            k <= edges.len(),
            all == edges@,
            entry_count(n, n) is Ok,
            matrix@.wf(),
            matrix@.has_shape(n as nat, n as nat),
            edges_in_range(n as nat, all.take(k as int)),
            forall|i: int, j: int|
                0 <= i < n && 0 <= j < n ==> matrix@.at(i, j) == link_value(
                    all.take(k as int),
                    i,
                    j,
                ),
        decreases edges.len() - k,
    {
        let (s, t) = edges[k];
        if s >= n || t >= n {
            proof {
                assert(all[k as int] == (s, t));
            }
            return Err(EsnError::InvalidParameter);
        }
        let ghost before = matrix@;
        matrix.put(s, t, Scalar::one());
        let ghost between = matrix@;
        matrix.put(t, s, Scalar::one());
        proof {
            let shorter = all.take(k as int);
            let longer = all.take(k as int + 1);
            assert(longer =~= shorter.push((s, t)));
            assert forall|p: int| 0 <= p < longer.len() implies (#[trigger] longer[p]).0 < n
                && longer[p].1 < n by {
                if p < k {
                    assert(longer[p] == shorter[p]);
                }
            }
            assert forall|i: int, j: int| 0 <= i < n && 0 <= j < n implies matrix@.at(i, j)
                == link_value(longer, i, j) by {
                before.offset_in_bounds(i, j);
                before.offset_in_bounds(s as int, t as int);
                before.offset_in_bounds(t as int, s as int);
                let here = before.offset(i, j);
                let first = before.offset(s as int, t as int);
                let second = before.offset(t as int, s as int);
                assert(here == first <==> (i == s && j == t));
                assert(here == second <==> (i == t && j == s));
                assert(matrix@.at(i, j) == matrix@.entries[here]);
                assert(before.at(i, j) == before.entries[here]);
                assert(before.at(i, j) == link_value(shorter, i, j));
                if linked(shorter, i, j) {
                    let w = choose|w: int|
                        0 <= w < shorter.len() && joins(#[trigger] shorter[w], i, j);
                    assert(longer[w] == shorter[w]);
                    assert(joins(longer[w], i, j));
                }
                if joins((s, t), i, j) {
                    assert(longer[k as int] == (s, t));
                    assert(joins(longer[k as int], i, j));
                }
                if linked(longer, i, j) {
                    let w = choose|w: int|
                        0 <= w < longer.len() && joins(#[trigger] longer[w], i, j);
                    if w < k {
                        assert(shorter[w] == longer[w]);
                        assert(joins(shorter[w], i, j));
                    }
                }
            }
        }
        k += 1;
    }
    proof {
        assert(all.take(k as int) =~= all);
        let goal = adjacency(n as nat, all);
        assert forall|i: int, j: int| matrix@.in_range(i, j) implies matrix@.at(i, j) == goal.at(
            i,
            j,
        ) by {
            adjacency_at(n as nat, all, i, j);
        }
        matrix@.equal_by_positions(goal);
    }
    Ok(matrix)
}

/// Builds the adjacency matrix of a random simple graph on `n` nodes with
/// exactly `m` edges, from a generator seeded with `seed`.
///
/// Whatever graph is drawn, the matrix is the adjacency matrix of a simple
/// graph with `m` edges.
pub fn random_adjacency(n: usize, m: usize, seed: u64) -> (r: Result<Matrix, EsnError>)
    ensures
        match edge_budget(n, m) {
            Err(e) => r == Err::<Matrix, EsnError>(e),
            Ok(_) => r is Ok && exists|edges: Seq<(usize, usize)>|
                edges.len() == m && simple_edges(n as nat, edges) && r->Ok_0@ == #[trigger] adjacency(
                    n as nat,
                    edges,
                ),
        },
        r is Ok ==> r->Ok_0@.wf(),
{
    let edges = random_edges(n, m, seed)?;
    graph_to_adjacency_matrix(n, &edges)
}

} // verus!

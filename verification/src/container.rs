//! The graph container: petgraph's `Graph`, held behind trusted items.
//!
//! The container's contents are named by two uninterpreted views, `nodes_of`
//! and `edges_of`; each wrapper states over those views what the petgraph
//! source shows of one method.  Everything built on top of the container is
//! verified against these contracts.

use vstd::prelude::*;
use crate::model::EdgeRec;

verus! {

#[verifier::external_type_specification]
#[verifier::external_body]
#[verifier::reject_recursive_types(N)]
#[verifier::reject_recursive_types(E)]
#[verifier::reject_recursive_types(Ty)]
#[verifier::reject_recursive_types(Ix)]
pub struct ExGraph<N, E, Ty, Ix>(petgraph::graph::Graph<N, E, Ty, Ix>);

#[verifier::external_type_specification]
#[verifier::external_body]
pub struct ExUndirected(petgraph::Undirected);

/// An undirected multigraph with `u64` node weights, `u64` edge weights and
/// the default `u32` index type.
pub type UGraph = petgraph::graph::Graph<u64, u64, petgraph::Undirected, u32>;

/// The node weights a graph holds, by node index.
pub uninterp spec fn nodes_of(g: UGraph) -> Seq<u64>;

/// The edge records a graph holds, by edge index: each edge's endpoints in
/// insertion order, and its weight.
pub uninterp spec fn edges_of(g: UGraph) -> Seq<EdgeRec>;

/// Relies on petgraph's `Graph::with_capacity`: a fresh graph with no nodes
/// and no edges.
#[verifier::external_body]
pub fn new_graph(nodes_cap: usize, edges_cap: usize) -> (g: UGraph)
    ensures
        nodes_of(g) == Seq::<u64>::empty(),
        edges_of(g) == Seq::<EdgeRec>::empty(),
{
    petgraph::graph::Graph::with_capacity(nodes_cap, edges_cap)
}

/// Relies on petgraph's `Graph::node_count`: the number of nodes.
#[verifier::external_body]
pub fn node_count(g: &UGraph) -> (n: usize)
    ensures
        n == nodes_of(*g).len(),
{
    g.node_count()
}

/// Relies on petgraph's `Graph::edge_count`: the number of edges.
#[verifier::external_body]
pub fn edge_count(g: &UGraph) -> (n: usize)
    ensures
        n == edges_of(*g).len(),
{
    g.edge_count()
}

/// Relies on petgraph's `Graph::node_weight`: the weight of node `v`, which
/// exists whenever `v` is in range.
#[verifier::external_body]
pub fn node_weight(g: &UGraph, v: usize) -> (w: u64)
    requires
        v < nodes_of(*g).len(),
    ensures
        w == nodes_of(*g)[v as int],
{
    *g.node_weight(petgraph::graph::NodeIndex::new(v)).unwrap()
}

/// Relies on petgraph's `Graph::edge_endpoints`: the two endpoints of edge
/// `e`, in the order the edge was inserted with.
#[verifier::external_body]
pub fn edge_endpoints(g: &UGraph, e: usize) -> (r: (usize, usize))
    requires
        e < edges_of(*g).len(),
    ensures
        r.0 == edges_of(*g)[e as int].0,
        r.1 == edges_of(*g)[e as int].1,
{
    let (a, b) = g.edge_endpoints(petgraph::graph::EdgeIndex::new(e)).unwrap();
    (a.index(), b.index())
}

/// Relies on petgraph's `Graph::edge_weight`: the weight of edge `e`, which
/// exists whenever `e` is in range.
#[verifier::external_body]
pub fn edge_weight(g: &UGraph, e: usize) -> (w: u64)
    requires
        e < edges_of(*g).len(),
    ensures
        w == edges_of(*g)[e as int].2,
{
    *g.edge_weight(petgraph::graph::EdgeIndex::new(e)).unwrap()
}

/// Relies on petgraph's `Graph::add_node`: appends a node and returns its
/// index, the old node count.  petgraph panics at the `u32` index limit, so
/// that case is excluded here.
#[verifier::external_body]
pub fn add_node(g: &mut UGraph, w: u64) -> (v: usize)
    requires
        nodes_of(*old(g)).len() < u32::MAX as usize,
    ensures
        nodes_of(*final(g)) == nodes_of(*old(g)).push(w),
        edges_of(*final(g)) == edges_of(*old(g)),
        v == nodes_of(*old(g)).len(),
{
    g.add_node(w).index()
}

/// Relies on petgraph's `Graph::add_edge`: appends an edge from `a` to `b`
/// and returns its index, the old edge count.  petgraph panics on an endpoint
/// out of range and at the `u32` index limit, so those cases are excluded
/// here.
#[verifier::external_body]
pub fn add_edge(g: &mut UGraph, a: usize, b: usize, w: u64) -> (e: usize)
    requires
        a < nodes_of(*old(g)).len(),
        b < nodes_of(*old(g)).len(),
        edges_of(*old(g)).len() < u32::MAX as usize,
    ensures
        nodes_of(*final(g)) == nodes_of(*old(g)),
        edges_of(*final(g)) == edges_of(*old(g)).push((a, b, w)),
        e == edges_of(*old(g)).len(),
{
    g.add_edge(
        petgraph::graph::NodeIndex::new(a),
        petgraph::graph::NodeIndex::new(b),
        w,
    ).index()
}

/// Relies on petgraph's `Graph::node_weight_mut`: overwrites the weight of
/// node `v`, which exists whenever `v` is in range.
#[verifier::external_body]
pub fn set_node_weight(g: &mut UGraph, v: usize, w: u64)
    requires
        v < nodes_of(*old(g)).len(),
    ensures
        nodes_of(*final(g)) == nodes_of(*old(g)).update(v as int, w),
        edges_of(*final(g)) == edges_of(*old(g)),
{
    *g.node_weight_mut(petgraph::graph::NodeIndex::new(v)).unwrap() = w;
}

} // verus!

//! The mathematical model of the line-graph construction.
//!
//! A graph is modelled as a sequence of node weights and a sequence of edge
//! records; the spec functions here say, over those sequences alone, which
//! node weights and which edges the line graph has.

use vstd::prelude::*;

verus! {

/// One edge of an undirected multigraph: the two endpoint node indices, in
/// the order the edge was inserted with, and the edge's weight.
pub type EdgeRec = (usize, usize, u64);

/// Does edge `e` have `v` as one of its endpoints?
pub open spec fn touches(e: EdgeRec, v: int) -> bool {
    e.0 as int == v || e.1 as int == v
}

/// The indices below `k` of the edges incident to `v`, in increasing order.
/// A self-loop at `v` appears once.
pub open spec fn incident_upto(edges: Seq<EdgeRec>, v: int, k: int) -> Seq<usize>
    decreases k,
{
    if k <= 0 {
        Seq::empty()
    } else if touches(edges[k - 1], v) {
        incident_upto(edges, v, k - 1).push((k - 1) as usize)
    } else {
        incident_upto(edges, v, k - 1)
    }
}

/// The indices of all edges incident to `v`, in increasing order.
pub open spec fn incident(edges: Seq<EdgeRec>, v: int) -> Seq<usize> {
    incident_upto(edges, v, edges.len() as int)
}

/// The degree of `v`: how many edges are incident to it, self-loops and
/// parallel edges each counted as one incident edge.
pub open spec fn degree(edges: Seq<EdgeRec>, v: int) -> int {
    incident(edges, v).len() as int
}

/// The number of unordered pairs of distinct items among `k` items,
/// C(k, 2) = k * (k - 1) / 2, written without division.
pub open spec fn pair_count(k: int) -> int
    decreases k,
{
    if k <= 1 {
        0
    } else {
        (k - 1) + pair_count(k - 1)
    }
}

/// The output edges that pair `first` with each element of `rest` in turn,
/// all weighted `w`.
pub open spec fn pair_row(first: usize, rest: Seq<usize>, w: u64) -> Seq<EdgeRec> {
    Seq::new(rest.len(), |i: int| (first, rest[i], w))
}

/// The output edges for the unordered pairs from `inc` whose earlier element
/// stands at a position below `s`: row upon row, each element paired with
/// every later one.
pub open spec fn pairs_upto(inc: Seq<usize>, w: u64, s: int) -> Seq<EdgeRec>
    decreases s,
{
    if s <= 0 {
        Seq::empty()
    } else {
        pairs_upto(inc, w, s - 1) + pair_row(inc[s - 1], inc.skip(s), w)
    }
}

/// The output edges one vertex contributes: one edge per unordered pair of
/// distinct edges incident to it (`inc`), each weighted with the vertex's
/// own weight `w`.  No edge is paired with itself.
pub open spec fn vertex_pairs(inc: Seq<usize>, w: u64) -> Seq<EdgeRec> {
    pairs_upto(inc, w, inc.len() as int)
}

/// The output edges contributed by the vertices below `v`, in vertex order.
pub open spec fn line_edges_upto(nodes: Seq<u64>, edges: Seq<EdgeRec>, v: int) -> Seq<EdgeRec>
    decreases v,
{
    if v <= 0 {
        Seq::empty()
    } else {
        line_edges_upto(nodes, edges, v - 1) + vertex_pairs(
            incident(edges, v - 1),
            nodes[v - 1],
        )
    }
}

/// The edges of the line graph of the graph `(nodes, edges)`.
pub open spec fn line_edge_seq(nodes: Seq<u64>, edges: Seq<EdgeRec>) -> Seq<EdgeRec> {
    line_edges_upto(nodes, edges, nodes.len() as int)
}

/// The node weights of the line graph: output node `e` carries the weight of
/// input edge `e`.
pub open spec fn line_node_seq(edges: Seq<EdgeRec>) -> Seq<u64> {
    Seq::new(edges.len(), |i: int| edges[i].2)
}

} // verus!

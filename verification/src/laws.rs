//! Proved laws of the line-graph model.
//!
//! The builder's contract pins the output down to [`line_node_seq`] and
//! [`line_edge_seq`]; the lemmas here say what those sequences look like:
//! how long each vertex's contribution is (the degree-sum law) and that
//! every output edge's weight is the weight of a shared endpoint (the
//! edge-weight correspondence law).

use vstd::prelude::*;
use crate::model::EdgeRec;
use crate::model::touches;
use crate::model::incident_upto;
use crate::model::incident;
use crate::model::degree;
use crate::model::pair_count;
use crate::model::pair_row;
use crate::model::pairs_upto;
use crate::model::vertex_pairs;
use crate::model::line_edges_upto;
use crate::model::line_edge_seq;

verus! {

/// Every entry of `incident_upto(edges, v, k)` is an edge index below `k`
/// whose edge has `v` as an endpoint.
pub proof fn lemma_incident_members(edges: Seq<EdgeRec>, v: int, k: int)
    requires
        0 <= k <= edges.len(),
        edges.len() <= usize::MAX,
    ensures
        forall|i: int|
            0 <= i < incident_upto(edges, v, k).len() ==> {
                let e = #[trigger] incident_upto(edges, v, k)[i];
                e < k && touches(edges[e as int], v)
            },
    decreases k,
{
    if k > 0 {
        lemma_incident_members(edges, v, k - 1);
        let prev = incident_upto(edges, v, k - 1);
        let cur = incident_upto(edges, v, k);
        assert forall|i: int| 0 <= i < cur.len() implies {
            let e = #[trigger] cur[i];
            e < k && touches(edges[e as int], v)
        } by {
            if i < prev.len() {
                assert(cur[i] == prev[i]);
            } else {
                assert(cur[i] == (k - 1) as usize);
            }
        }
    }
}

/// No more edges are incident to `v` among the first `k` than `k` itself.
pub proof fn lemma_incident_len(edges: Seq<EdgeRec>, v: int, k: int)
    requires
        0 <= k,
    ensures
        incident_upto(edges, v, k).len() <= k,
    decreases k,
{
    if k > 0 {
        lemma_incident_len(edges, v, k - 1);
    }
}

/// Doubling `pair_count(k)` gives the product form k * (k - 1).
pub proof fn lemma_pair_count_double(k: int)
    requires
        0 <= k,
    ensures
        2 * pair_count(k) == k * (k - 1),
    decreases k,
{
    if k > 1 {
        lemma_pair_count_double(k - 1);
        assert(2 * (k - 1) + (k - 1) * (k - 2) == k * (k - 1)) by (nonlinear_arith);
    } else {
        assert(k * (k - 1) == 0) by (nonlinear_arith)
            requires
                0 <= k <= 1,
        ;
    }
}

/// `pair_count(k)` is the binomial coefficient C(k, 2) = k * (k - 1) / 2.
pub proof fn lemma_pair_count_closed(k: int)
    requires
        0 <= k,
    ensures
        pair_count(k) == k * (k - 1) / 2,
{
    lemma_pair_count_double(k);
    assert(2 * pair_count(k) / 2 == pair_count(k));
}

/// How long the first `s` rows of the pair enumeration are, as a difference
/// of pair counts.
pub proof fn lemma_pairs_upto_count(inc: Seq<usize>, w: u64, s: int)
    requires
        0 <= s <= inc.len(),
    ensures
        pairs_upto(inc, w, s).len() == pair_count(inc.len() as int) - pair_count(
            inc.len() - s,
        ),
    decreases s,
{
    if s > 0 {
        lemma_pairs_upto_count(inc, w, s - 1);
    }
}

/// The pair enumeration only grows from row to row.
pub proof fn lemma_pairs_upto_le(inc: Seq<usize>, w: u64, s1: int, s2: int)
    requires
        0 <= s1 <= s2 <= inc.len(),
    ensures
        pairs_upto(inc, w, s1).len() <= pairs_upto(inc, w, s2).len(),
    decreases s2 - s1,
{
    if s1 < s2 {
        lemma_pairs_upto_le(inc, w, s1, s2 - 1);
    }
}

/// The line-graph edge sequence only grows from vertex to vertex.
pub proof fn lemma_line_upto_le(nodes: Seq<u64>, edges: Seq<EdgeRec>, v1: int, v2: int)
    requires
        0 <= v1 <= v2 <= nodes.len(),
    ensures
        line_edges_upto(nodes, edges, v1).len() <= line_edges_upto(nodes, edges, v2).len(),
    decreases v2 - v1,
{
    if v1 < v2 {
        lemma_line_upto_le(nodes, edges, v1, v2 - 1);
    }
}

/// Degree-sum law: vertex `v` contributes exactly C(degree(v), 2) output
/// edges, degree counting self-loops and parallel edges as distinct
/// incident edges.
pub proof fn lemma_degree_sum(nodes: Seq<u64>, edges: Seq<EdgeRec>, v: int)
    requires
        0 <= v < nodes.len(),
    ensures
        line_edges_upto(nodes, edges, v + 1) == line_edges_upto(nodes, edges, v) + vertex_pairs(
            incident(edges, v),
            nodes[v],
        ),
        vertex_pairs(incident(edges, v), nodes[v]).len() == pair_count(degree(edges, v)),
{
    let inc = incident(edges, v);
    lemma_pairs_upto_count(inc, nodes[v], inc.len() as int);
}

/// Every pair the enumeration emits takes both of its endpoints from `inc`
/// and carries the weight `w`.
pub proof fn lemma_pairs_members(inc: Seq<usize>, w: u64, s: int)
    requires
        0 <= s <= inc.len(),
    ensures
        forall|j: int|
            0 <= j < pairs_upto(inc, w, s).len() ==> {
                let p = #[trigger] pairs_upto(inc, w, s)[j];
                inc.contains(p.0) && inc.contains(p.1) && p.2 == w
            },
    decreases s,
{
    if s > 0 {
        lemma_pairs_members(inc, w, s - 1);
        let prev = pairs_upto(inc, w, s - 1);
        let row = pair_row(inc[s - 1], inc.skip(s), w);
        assert forall|j: int| 0 <= j < pairs_upto(inc, w, s).len() implies {
            let p = #[trigger] pairs_upto(inc, w, s)[j];
            inc.contains(p.0) && inc.contains(p.1) && p.2 == w
        } by {
            if j >= prev.len() {
                let i = j - prev.len();
                assert(pairs_upto(inc, w, s)[j] == row[i]);
                assert(inc[s - 1] == inc[s - 1]);
                assert(inc.skip(s)[i] == inc[s + i]);
            }
        }
    }
}

/// `v` is a node that both corresponding input edges of the output edge `le`
/// touch, and `le` carries `v`'s weight.
pub open spec fn shared_endpoint_ok(
    nodes: Seq<u64>,
    edges: Seq<EdgeRec>,
    le: EdgeRec,
    v: int,
) -> bool {
    &&& 0 <= v < nodes.len()
    &&& (le.0 as int) < edges.len()
    &&& (le.1 as int) < edges.len()
    &&& touches(edges[le.0 as int], v)
    &&& touches(edges[le.1 as int], v)
    &&& le.2 == nodes[v]
}

/// Every edge among the contributions of the vertices below `vmax` connects
/// two valid input edges that share an endpoint, and carries that shared
/// endpoint's weight.
pub proof fn lemma_line_upto_members(nodes: Seq<u64>, edges: Seq<EdgeRec>, vmax: int, j: int)
    requires
        edges.len() <= usize::MAX,
        0 <= vmax <= nodes.len(),
        0 <= j < line_edges_upto(nodes, edges, vmax).len(),
    ensures
        exists|v: int|
            shared_endpoint_ok(nodes, edges, line_edges_upto(nodes, edges, vmax)[j], v),
    decreases vmax,
{
    let prev = line_edges_upto(nodes, edges, vmax - 1);
    let le = line_edges_upto(nodes, edges, vmax)[j];
    if j < prev.len() {
        lemma_line_upto_members(nodes, edges, vmax - 1, j);
        let v0 = choose|v: int| shared_endpoint_ok(nodes, edges, prev[j], v);
        assert(shared_endpoint_ok(nodes, edges, le, v0));
    } else {
        let inc = incident(edges, vmax - 1);
        let w = nodes[vmax - 1];
        let i = j - prev.len();
        lemma_pairs_members(inc, w, inc.len() as int);
        lemma_incident_members(edges, vmax - 1, edges.len() as int);
        assert(le == vertex_pairs(inc, w)[i]);
        assert(inc.contains(le.0) && inc.contains(le.1) && le.2 == w);
        let i0 = choose|i0: int| 0 <= i0 < inc.len() && inc[i0] == le.0;
        let i1 = choose|i1: int| 0 <= i1 < inc.len() && inc[i1] == le.1;
        assert(inc[i0] < edges.len() && touches(edges[inc[i0] as int], vmax - 1));
        assert(inc[i1] < edges.len() && touches(edges[inc[i1] as int], vmax - 1));
        assert(shared_endpoint_ok(nodes, edges, le, vmax - 1));
    }
}

/// Edge-weight correspondence law: every edge of the line graph connects two
/// input edges that share an endpoint in the input graph, and its weight is
/// that shared endpoint's weight.
pub proof fn lemma_edge_weight_correspondence(nodes: Seq<u64>, edges: Seq<EdgeRec>, j: int)
    requires
        edges.len() <= usize::MAX,
        0 <= j < line_edge_seq(nodes, edges).len(),
    ensures
        exists|v: int| shared_endpoint_ok(nodes, edges, line_edge_seq(nodes, edges)[j], v),
{
    lemma_line_upto_members(nodes, edges, nodes.len() as int, j);
}

} // verus!

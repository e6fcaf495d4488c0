//! The verified line-graph builder.

use vstd::prelude::*;
use crate::container::UGraph;
use crate::container::nodes_of;
use crate::container::edges_of;
use crate::container::new_graph;
use crate::container::node_count;
use crate::container::edge_count;
use crate::container::node_weight;
use crate::container::edge_endpoints;
use crate::container::edge_weight;
use crate::container::add_node;
use crate::container::add_edge;
use crate::container::set_node_weight;
use crate::model::EdgeRec;
use crate::model::incident;
use crate::model::incident_upto;
use crate::model::pair_row;
use crate::model::pairs_upto;
use crate::model::vertex_pairs;
use crate::model::line_edges_upto;
use crate::model::line_edge_seq;
use crate::model::line_node_seq;
use crate::laws::lemma_incident_members;
use crate::laws::lemma_incident_len;
use crate::laws::lemma_pair_count_closed;
use crate::laws::lemma_pairs_upto_count;
use crate::laws::lemma_pairs_upto_le;
use crate::laws::lemma_line_upto_le;

verus! {

/// Reads every node weight out of the container, in node-index order.
pub fn collect_node_weights(g: &UGraph) -> (out: Vec<u64>)
    ensures
        out@ == nodes_of(*g),
{
    let n = node_count(g);
    let mut out: Vec<u64> = Vec::new();
    let mut i: usize = 0;
    while i < n
        invariant
            i <= n,
            n == nodes_of(*g).len(),
            out@ == nodes_of(*g).take(i as int),
        decreases n - i,
    {
        let w = node_weight(g, i);
        out.push(w);
        proof {
            assert(out@ =~= nodes_of(*g).take(i + 1));
        }
        i = i + 1;
    }
    proof {
        assert(nodes_of(*g).take(n as int) =~= nodes_of(*g));
    }
    out
}

/// Reads every edge record out of the container, in edge-index order.
pub fn collect_edge_recs(g: &UGraph) -> (out: Vec<EdgeRec>)
    ensures
        out@ == edges_of(*g),
{
    let m = edge_count(g);
    let mut out: Vec<EdgeRec> = Vec::new();
    let mut e: usize = 0;
    while e < m
        invariant
            e <= m,
            m == edges_of(*g).len(),
            out@ == edges_of(*g).take(e as int),
        decreases m - e,
    {
        let (a, b) = edge_endpoints(g, e);
        let w = edge_weight(g, e);
        out.push((a, b, w));
        proof {
            assert(out@ =~= edges_of(*g).take(e + 1));
        }
        e = e + 1;
    }
    proof {
        assert(edges_of(*g).take(m as int) =~= edges_of(*g));
    }
    out
}

/// Collects the indices of the edges incident to `v`, in increasing order.
pub fn incident_edges(edges: &Vec<EdgeRec>, v: usize) -> (inc: Vec<usize>)
    ensures
        inc@ == incident(edges@, v as int),
{
    let m = edges.len();
    let mut inc: Vec<usize> = Vec::new();
    let mut e: usize = 0;
    while e < m
        invariant
            e <= m,
            m == edges@.len(),
            inc@ == incident_upto(edges@, v as int, e as int),
        decreases m - e,
    {
        let (a, b, _w) = edges[e];
        if a == v || b == v {
            inc.push(e);
        }
        e = e + 1;
    }
    inc
}

/// Construct the line graph for `g`.
///
/// The output has one node per edge of `g`, carrying that edge's weight, and
/// one edge per unordered pair of distinct edges of `g` that share an
/// endpoint, once per shared endpoint, carrying that endpoint's weight.  The
/// input is never mutated.  The two `requires` are the container's `u32`
/// index capacity, at which petgraph aborts.
pub fn line_graph(g: &UGraph) -> (lg: UGraph)
    requires
        edges_of(*g).len() <= u32::MAX as usize,
        line_edge_seq(nodes_of(*g), edges_of(*g)).len() <= u32::MAX as usize,
    ensures
        nodes_of(lg) == line_node_seq(edges_of(*g)),
        edges_of(lg) == line_edge_seq(nodes_of(*g), edges_of(*g)),
        nodes_of(lg).len() == edges_of(*g).len(),
        forall|e: int|
            0 <= e < edges_of(*g).len() ==> nodes_of(lg)[e] == edges_of(*g)[e].2,
{
    let ghost gn = nodes_of(*g);
    let ghost ge = edges_of(*g);
    let nodes_v = collect_node_weights(g);
    let edges_v = collect_edge_recs(g);
    let n = nodes_v.len();
    let m = edges_v.len();
    let mut lg = new_graph(m, 0);

    // One output node per input edge, at a placeholder weight, so that input
    // edge indices map directly to output node indices.
    let mut i: usize = 0;
    while i < m
        invariant
            i <= m,
            m <= u32::MAX as usize,
            nodes_of(lg).len() == i as int,
            edges_of(lg) == Seq::<EdgeRec>::empty(),
        decreases m - i,
    {
        add_node(&mut lg, 0);
        i = i + 1;
    }

    // For every input vertex, one output edge per unordered pair of distinct
    // incident edges, weighted with the vertex's weight.
    let mut v: usize = 0;
    while v < n
        invariant
            v <= n,
            n == gn.len(),
            m == ge.len(),
            nodes_v@ == gn,
            edges_v@ == ge,
            nodes_of(lg).len() == m as int,
            line_edge_seq(gn, ge).len() <= u32::MAX as usize,
            edges_of(lg) == line_edges_upto(gn, ge, v as int),
        decreases n - v,
    {
        let w = nodes_v[v];
        let inc = incident_edges(&edges_v, v);
        let k = inc.len();
        let ghost incs = inc@;
        let ghost base = line_edges_upto(gn, ge, v as int);
        proof {
            lemma_incident_members(ge, v as int, m as int);
            assert(edges_of(lg) =~= base + pairs_upto(incs, w, 0));
        }
        let mut s: usize = 0;
        while s < k
            invariant
                s <= k,
                k == incs.len(),
                inc@ == incs,
                incs == incident(ge, v as int),
                n == gn.len(),
                m == ge.len(),
                v < n,
                w == gn[v as int],
                forall|q: int| 0 <= q < incs.len() ==> (#[trigger] incs[q]) < m,
                nodes_of(lg).len() == m as int,
                line_edge_seq(gn, ge).len() <= u32::MAX as usize,
                base == line_edges_upto(gn, ge, v as int),
                edges_of(lg) == base + pairs_upto(incs, w, s as int),
            decreases k - s,
        {
            let first = inc[s];
            proof {
                assert(incs.subrange(s as int + 1, s as int + 1) =~= Seq::<usize>::empty());
                assert(edges_of(lg) =~= base + pairs_upto(incs, w, s as int) + pair_row(
                    incs[s as int],
                    incs.subrange(s as int + 1, s as int + 1),
                    w,
                ));
            }
            let mut t: usize = s + 1;
            while t < k
                invariant
                    s < k,
                    s + 1 <= t <= k,
                    k == incs.len(),
                    inc@ == incs,
                    incs == incident(ge, v as int),
                    n == gn.len(),
                    m == ge.len(),
                    v < n,
                    w == gn[v as int],
                    first == incs[s as int],
                    forall|q: int| 0 <= q < incs.len() ==> (#[trigger] incs[q]) < m,
                    nodes_of(lg).len() == m as int,
                    line_edge_seq(gn, ge).len() <= u32::MAX as usize,
                    base == line_edges_upto(gn, ge, v as int),
                    edges_of(lg) == base + pairs_upto(incs, w, s as int) + pair_row(
                        incs[s as int],
                        incs.subrange(s as int + 1, t as int),
                        w,
                    ),
                decreases k - t,
            {
                let second = inc[t];
                proof {
                    lemma_pairs_upto_le(incs, w, s as int + 1, k as int);
                    lemma_line_upto_le(gn, ge, v as int + 1, n as int);
                    assert(line_edges_upto(gn, ge, v as int + 1) == base + vertex_pairs(
                        incident(ge, v as int),
                        gn[v as int],
                    ));
                    assert(edges_of(lg).len() < u32::MAX as usize);
                }
                add_edge(&mut lg, first, second, w);
                proof {
                    assert(pair_row(incs[s as int], incs.subrange(s as int + 1, t as int + 1), w)
                        =~= pair_row(incs[s as int], incs.subrange(s as int + 1, t as int), w)
                        .push((incs[s as int], incs[t as int], w)));
                    assert(edges_of(lg) =~= base + pairs_upto(incs, w, s as int) + pair_row(
                        incs[s as int],
                        incs.subrange(s as int + 1, t as int + 1),
                        w,
                    ));
                }
                t = t + 1;
            }
            proof {
                assert(incs.subrange(s as int + 1, k as int) =~= incs.skip(s as int + 1));
                assert(edges_of(lg) =~= base + pairs_upto(incs, w, s as int + 1));
            }
            s = s + 1;
        }
        proof {
            assert(pairs_upto(incs, w, k as int) == vertex_pairs(incs, w));
            assert(line_edges_upto(gn, ge, v as int + 1) == base + vertex_pairs(
                incident(ge, v as int),
                gn[v as int],
            ));
        }
        v = v + 1;
    }

    // Overwrite every output node's placeholder with its input edge's weight.
    let mut e: usize = 0;
    while e < m
        invariant
            e <= m,
            m == ge.len(),
            edges_v@ == ge,
            nodes_of(lg).len() == m as int,
            edges_of(lg) == line_edge_seq(gn, ge),
            forall|j: int| 0 <= j < e as int ==> nodes_of(lg)[j] == ge[j].2,
        decreases m - e,
    {
        let (_a, _b, wt) = edges_v[e];
        set_node_weight(&mut lg, e, wt);
        e = e + 1;
    }
    proof {
        assert(nodes_of(lg) =~= line_node_seq(ge));
    }
    lg
}

/// Construct the line graph for `g` if it fits the container's `u32` index
/// capacity; return `None`, building nothing, where it would not.
pub fn try_line_graph(g: &UGraph) -> (r: Option<UGraph>)
    ensures
        match r {
            Some(lg) => {
                &&& edges_of(*g).len() <= u32::MAX as usize
                &&& line_edge_seq(nodes_of(*g), edges_of(*g)).len() <= u32::MAX as usize
                &&& nodes_of(lg) == line_node_seq(edges_of(*g))
                &&& edges_of(lg) == line_edge_seq(nodes_of(*g), edges_of(*g))
            },
            None => edges_of(*g).len() > u32::MAX as usize || line_edge_seq(
                nodes_of(*g),
                edges_of(*g),
            ).len() > u32::MAX as usize,
        },
{
    let ghost gn = nodes_of(*g);
    let ghost ge = edges_of(*g);
    let m = edge_count(g);
    if m > u32::MAX as usize {
        return None;
    }
    let nodes_v = collect_node_weights(g);
    let edges_v = collect_edge_recs(g);
    let n = nodes_v.len();
    let mut total: u64 = 0;
    let mut v: usize = 0;
    while v < n
        invariant
            v <= n,
            n == gn.len(),
            m == ge.len(),
            m <= u32::MAX as usize,
            gn == nodes_of(*g),
            ge == edges_of(*g),
            nodes_v@ == gn,
            edges_v@ == ge,
            total as int == line_edges_upto(gn, ge, v as int).len(),
            total <= u32::MAX as u64,
        decreases n - v,
    {
        let inc = incident_edges(&edges_v, v);
        let k = inc.len();
        proof {
            lemma_incident_len(ge, v as int, m as int);
            lemma_pair_count_closed(k as int);
            lemma_pairs_upto_count(incident(ge, v as int), gn[v as int], k as int);
            assert(line_edges_upto(gn, ge, v as int + 1) == line_edges_upto(gn, ge, v as int)
                + vertex_pairs(incident(ge, v as int), gn[v as int]));
            if k >= 2 {
                assert((k as int) * ((k as int) - 1) <= 4294967295int * 4294967294int)
                    by (nonlinear_arith)
                    requires
                        2 <= k as int <= 4294967295int,
                ;
            }
        }
        let pc: u64 = if k >= 2 {
            (k as u64) * ((k as u64) - 1) / 2
        } else {
            0
        };
        if pc > u32::MAX as u64 - total {
            proof {
                lemma_line_upto_le(gn, ge, v as int + 1, n as int);
            }
            return None;
        }
        total = total + pc;
        v = v + 1;
    }
    Some(line_graph(g))
}

} // verus!

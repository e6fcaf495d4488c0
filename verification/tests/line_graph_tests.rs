use line_graph::line_graph;
use line_graph::try_line_graph;
use petgraph::algo::is_isomorphic;
use petgraph::graph::EdgeIndex;
use petgraph::graph::NodeIndex;
use petgraph::graph::UnGraph;

#[test]
fn dipole() {
    let orig = UnGraph::<u64, u64>::from_edges([(0, 1), (0, 1), (0, 1)]);
    let target = UnGraph::<u64, u64>::from_edges([
        (0, 1),
        (0, 1),
        (0, 2),
        (0, 2),
        (1, 2),
        (1, 2),
    ]);
    assert!(is_isomorphic(&target, &line_graph(&orig)));
}

// wikipedia example, indices shifted by -1
#[test]
fn simple() {
    let orig = UnGraph::<u64, u64>::from_edges([
        (0, 1),
        (0, 2),
        (0, 3),
        (1, 4),
        (2, 3),
        (3, 4),
    ]);
    let target = UnGraph::<u64, u64>::from_edges([
        (0, 1),
        (0, 2),
        (0, 3),
        (1, 2),
        (1, 4),
        (2, 4),
        (2, 5),
        (3, 5),
        (4, 5),
    ]);
    assert!(is_isomorphic(&target, &line_graph(&orig)));
}

#[test]
fn triangle_is_own_line_graph() {
    let g = UnGraph::<u64, u64>::from_edges([(0, 1), (1, 2), (2, 0)]);
    let lg = line_graph(&g);
    assert!(is_isomorphic(&g, &lg));
}

#[test]
fn empty_graph_gives_empty_output() {
    let g = UnGraph::<u64, u64>::new_undirected();
    let lg = line_graph(&g);
    assert_eq!(lg.node_count(), 0);
    assert_eq!(lg.edge_count(), 0);
}

#[test]
fn output_node_count_equals_input_edge_count() {
    let orig = UnGraph::<u64, u64>::from_edges([
        (0, 1),
        (0, 2),
        (0, 3),
        (1, 4),
        (2, 3),
        (3, 4),
    ]);
    let lg = line_graph(&orig);
    assert_eq!(lg.node_count(), orig.edge_count());
}

#[test]
fn output_node_weights_are_input_edge_weights() {
    let mut g = UnGraph::<u64, u64>::new_undirected();
    let a = g.add_node(1);
    let b = g.add_node(2);
    let c = g.add_node(3);
    g.add_edge(a, b, 100);
    g.add_edge(b, c, 200);
    g.add_edge(c, a, 300);
    let lg = line_graph(&g);
    assert_eq!(lg.node_count(), 3);
    for e in 0..3usize {
        let input_weight = *g.edge_weight(EdgeIndex::new(e)).unwrap();
        let output_weight = *lg.node_weight(NodeIndex::new(e)).unwrap();
        assert_eq!(output_weight, input_weight);
    }
}

#[test]
fn output_edge_weights_come_from_shared_endpoint() {
    // A star: every pair of edges shares only the centre, so every output
    // edge must carry the centre's weight.
    let mut g = UnGraph::<u64, u64>::new_undirected();
    let centre = g.add_node(99);
    let l1 = g.add_node(1);
    let l2 = g.add_node(2);
    let l3 = g.add_node(3);
    g.add_edge(centre, l1, 10);
    g.add_edge(centre, l2, 20);
    g.add_edge(centre, l3, 30);
    let lg = line_graph(&g);
    assert_eq!(lg.edge_count(), 3);
    for e in 0..lg.edge_count() {
        assert_eq!(*lg.edge_weight(EdgeIndex::new(e)).unwrap(), 99);
    }
}

#[test]
fn degree_sum_star_and_path() {
    // K_{1,3}: the centre has degree 3, each leaf degree 1, so the line
    // graph has C(3,2) = 3 edges.
    let star = UnGraph::<u64, u64>::from_edges([(0, 1), (0, 2), (0, 3)]);
    assert_eq!(line_graph(&star).edge_count(), 3);
    // A path on three nodes: one vertex of degree 2 contributes C(2,2) = 1.
    let path = UnGraph::<u64, u64>::from_edges([(0, 1), (1, 2)]);
    assert_eq!(line_graph(&path).edge_count(), 1);
}

#[test]
fn self_loop_pairs_with_other_edges_but_not_itself() {
    // A self-loop at node 0 plus one ordinary edge at node 0: the self-loop
    // is never paired with itself, so exactly one output edge appears.
    let g = UnGraph::<u64, u64>::from_edges([(0, 0), (0, 1)]);
    let lg = line_graph(&g);
    assert_eq!(lg.node_count(), 2);
    assert_eq!(lg.edge_count(), 1);
}

#[test]
fn exact_output_for_path() {
    let mut g = UnGraph::<u64, u64>::new_undirected();
    let a = g.add_node(5);
    let b = g.add_node(6);
    let c = g.add_node(7);
    g.add_edge(a, b, 9);
    g.add_edge(b, c, 8);
    let lg = line_graph(&g);
    assert_eq!(lg.node_count(), 2);
    assert_eq!(lg.edge_count(), 1);
    // Output node i stands for input edge i and carries its weight.
    assert_eq!(*lg.node_weight(NodeIndex::new(0)).unwrap(), 9);
    assert_eq!(*lg.node_weight(NodeIndex::new(1)).unwrap(), 8);
    // The single output edge joins the two edges' nodes and carries the
    // weight of their shared endpoint, node b.
    let (x, y) = lg.edge_endpoints(EdgeIndex::new(0)).unwrap();
    assert_eq!((x.index(), y.index()), (0, 1));
    assert_eq!(*lg.edge_weight(EdgeIndex::new(0)).unwrap(), 6);
}

#[test]
fn input_graph_is_unchanged() {
    let mut g = UnGraph::<u64, u64>::new_undirected();
    let a = g.add_node(11);
    let b = g.add_node(22);
    g.add_edge(a, b, 33);
    g.add_edge(a, b, 44);
    g.add_edge(a, a, 55);
    let nodes_before: Vec<u64> = g.node_weights().copied().collect();
    let edges_before: Vec<(usize, usize, u64)> = (0..g.edge_count())
        .map(|e| {
            let (x, y) = g.edge_endpoints(EdgeIndex::new(e)).unwrap();
            (x.index(), y.index(), *g.edge_weight(EdgeIndex::new(e)).unwrap())
        })
        .collect();
    let _lg = line_graph(&g);
    let nodes_after: Vec<u64> = g.node_weights().copied().collect();
    let edges_after: Vec<(usize, usize, u64)> = (0..g.edge_count())
        .map(|e| {
            let (x, y) = g.edge_endpoints(EdgeIndex::new(e)).unwrap();
            (x.index(), y.index(), *g.edge_weight(EdgeIndex::new(e)).unwrap())
        })
        .collect();
    assert_eq!(nodes_before, nodes_after);
    assert_eq!(edges_before, edges_after);
}

#[test]
fn try_line_graph_agrees_with_line_graph() {
    let g = UnGraph::<u64, u64>::from_edges([(0, 1), (1, 2), (2, 0), (0, 0)]);
    let lg = line_graph(&g);
    let tried = try_line_graph(&g).unwrap();
    assert_eq!(tried.node_count(), lg.node_count());
    assert_eq!(tried.edge_count(), lg.edge_count());
    for e in 0..lg.edge_count() {
        let (x0, y0) = lg.edge_endpoints(EdgeIndex::new(e)).unwrap();
        let (x1, y1) = tried.edge_endpoints(EdgeIndex::new(e)).unwrap();
        assert_eq!((x0, y0), (x1, y1));
        assert_eq!(
            lg.edge_weight(EdgeIndex::new(e)).unwrap(),
            tried.edge_weight(EdgeIndex::new(e)).unwrap()
        );
    }
    for v in 0..lg.node_count() {
        assert_eq!(
            lg.node_weight(NodeIndex::new(v)).unwrap(),
            tried.node_weight(NodeIndex::new(v)).unwrap()
        );
    }
}

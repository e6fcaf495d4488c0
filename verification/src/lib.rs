//! Line graphs of undirected multigraphs.
//!
//! The line graph of a graph `G` has one node per edge of `G`, and one edge
//! per unordered pair of distinct edges of `G` that share an endpoint, once
//! per shared endpoint.  Weights swap roles: each output node carries the
//! weight of its input edge, and each output edge carries the weight of the
//! shared input node.
//!
//! The graphs themselves are petgraph `UnGraph` values; the construction on
//! top of them is verified against the model in [`model`].

pub mod container;
pub mod model;
pub mod builder;
pub mod laws;

pub use builder::line_graph;
pub use builder::try_line_graph;

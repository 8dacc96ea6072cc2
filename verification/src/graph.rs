use crate::api::execution::ExecutionGraphRelation;
use petgraph::graph::NodeIndex;
use petgraph::Graph;
use vstd::prelude::*;

verus! {

/// A petgraph graph; opaque, its contents are named below.
#[verifier::external_type_specification]
#[verifier::external_body]
#[verifier::reject_recursive_types(N)]
#[verifier::reject_recursive_types(E)]
#[verifier::reject_recursive_types(Ty)]
#[verifier::reject_recursive_types(Ix)]
pub struct ExGraph<N, E, Ty, Ix>(Graph<N, E, Ty, Ix>);

/// The marker for graphs with directed edges.
#[verifier::external_type_specification]
#[verifier::external_body]
pub struct ExDirected(petgraph::Directed);

/// The node weights of an execution graph, by node index.
pub uninterp spec fn graph_nodes(g: Graph<String, ExecutionGraphRelation>) -> Seq<Seq<char>>;

/// The edges of an execution graph as (source, target) node indices, by edge index.
pub uninterp spec fn graph_edges(g: Graph<String, ExecutionGraphRelation>) -> Seq<(int, int)>;

/// Calls `petgraph::Graph::new`: a directed graph with no nodes and no edges.
#[verifier::external_body]
pub(crate) fn new_graph() -> (g: Graph<String, ExecutionGraphRelation>)
    ensures
        graph_nodes(g) == Seq::<Seq<char>>::empty(),
        graph_edges(g) == Seq::<(int, int)>::empty(),
{
    Graph::new()
}

/// Calls `petgraph::Graph::add_node`, which appends a node with the weight and
/// returns its index. It panics when the graph already holds `u32::MAX` nodes.
#[verifier::external_body]
pub(crate) fn add_node(g: &mut Graph<String, ExecutionGraphRelation>, weight: String) -> (idx: usize)
    requires
        graph_nodes(*old(g)).len() < u32::MAX,
    ensures
        graph_nodes(*final(g)) == graph_nodes(*old(g)).push(weight@),
        graph_edges(*final(g)) == graph_edges(*old(g)),
        idx == graph_nodes(*old(g)).len(),
{
    g.add_node(weight).index()
}

/// Calls `petgraph::Graph::add_edge`, which appends an edge from node `a` to node
/// `b`. It panics when a node does not exist or the graph already holds
/// `u32::MAX` edges.
#[verifier::external_body]
pub(crate) fn add_edge(
    g: &mut Graph<String, ExecutionGraphRelation>,
    a: usize,
    b: usize,
    weight: ExecutionGraphRelation,
)
    requires
        a < graph_nodes(*old(g)).len(),
        b < graph_nodes(*old(g)).len(),
        graph_edges(*old(g)).len() < u32::MAX,
    ensures
        graph_nodes(*final(g)) == graph_nodes(*old(g)),
        graph_edges(*final(g)) == graph_edges(*old(g)).push((a as int, b as int)),
{
    g.add_edge(NodeIndex::new(a), NodeIndex::new(b), weight);
}

} // verus!

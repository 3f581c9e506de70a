//! The directed graphs of `petgraph` as this library uses them.
//!
//! Verus does not look inside a `petgraph` graph. What a graph holds is named
//! here: its node weights in index order, and its edges in index order, each
//! with the indices of its two ends. The functions below call `petgraph` and
//! say what each call does to those two sequences. Nothing in this file is
//! proved: it is what the rest of the library takes on trust of `petgraph`.
//! Indices are handed in and out as `usize`.

use vstd::prelude::*;
use petgraph::graph::{DiGraph, EdgeIndex, NodeIndex};
use crate::call::MicroserviceCall;
use crate::graph::{capacity, Link};
use crate::model::{Cardinality, Entity, EntityView, Microservice, MicroserviceView};

verus! {

/// `petgraph::graph::Graph`, of which `DiGraph` is the directed kind. Its
/// inside is hidden from Verus.
#[verifier::external_type_specification]
#[verifier::external_body]
#[verifier::reject_recursive_types(N)]
#[verifier::reject_recursive_types(E)]
#[verifier::reject_recursive_types(Ty)]
#[verifier::reject_recursive_types(Ix)]
pub struct ExGraph<N, E, Ty, Ix>(petgraph::graph::Graph<N, E, Ty, Ix>);

/// `petgraph::Directed`, the marker of a graph with directed edges.
#[verifier::external_type_specification]
#[verifier::external_body]
pub struct ExDirected(petgraph::Directed);

/// The node weights of an entity graph, in index order.
pub uninterp spec fn entity_graph_nodes(graph: DiGraph<Entity, Cardinality>) -> Seq<EntityView>;

/// The edges of an entity graph, in index order.
pub uninterp spec fn entity_graph_links(graph: DiGraph<Entity, Cardinality>) -> Seq<
    Link<Cardinality>,
>;

/// The node weights of a service graph, in index order.
pub uninterp spec fn service_graph_nodes(graph: DiGraph<Microservice, MicroserviceCall>) -> Seq<
    MicroserviceView,
>;

/// The edges of a service graph, in index order.
pub uninterp spec fn service_graph_links(graph: DiGraph<Microservice, MicroserviceCall>) -> Seq<
    Link<MicroserviceCall>,
>;

/// `Graph::new`: a graph without nodes or edges.
#[verifier::external_body]
pub(crate) fn entity_graph_new() -> (graph: DiGraph<Entity, Cardinality>)
    ensures
        entity_graph_nodes(graph) == Seq::<EntityView>::empty(),
        entity_graph_links(graph) == Seq::<Link<Cardinality>>::empty(),
{
    DiGraph::new()
}

/// `Graph::node_count`.
#[verifier::external_body]
pub(crate) fn entity_graph_node_count(graph: &DiGraph<Entity, Cardinality>) -> (count: usize)
    ensures
        count == entity_graph_nodes(*graph).len(),
{
    graph.node_count()
}

/// `Graph::edge_count`.
#[verifier::external_body]
pub(crate) fn entity_graph_edge_count(graph: &DiGraph<Entity, Cardinality>) -> (count: usize)
    ensures
        count == entity_graph_links(*graph).len(),
{
    graph.edge_count()
}

/// `Graph::add_node`: the new node comes last and gets the next index; the
/// edges stay. `petgraph` panics when the graph is full.
#[verifier::external_body]
pub(crate) fn entity_graph_add_node(graph: &mut DiGraph<Entity, Cardinality>, entity: Entity) -> (index:
    usize)
    requires
        entity_graph_nodes(*old(graph)).len() < capacity(),
    ensures
        entity_graph_nodes(*final(graph)) == entity_graph_nodes(*old(graph)).push(entity@),
        entity_graph_links(*final(graph)) == entity_graph_links(*old(graph)),
        index == entity_graph_nodes(*old(graph)).len(),
{
    graph.add_node(entity).index()
}

/// `Graph::add_edge`: the new edge comes last; the nodes stay. Parallel
/// edges are kept. `petgraph` panics when an end is no node of the graph or
/// the graph is full.
#[verifier::external_body]
pub(crate) fn entity_graph_add_edge(
    graph: &mut DiGraph<Entity, Cardinality>,
    source: usize,
    target: usize,
    weight: Cardinality,
)
    requires
        source < entity_graph_nodes(*old(graph)).len(),
        target < entity_graph_nodes(*old(graph)).len(),
        source <= u32::MAX,
        target <= u32::MAX,
        entity_graph_links(*old(graph)).len() < capacity(),
    ensures
        entity_graph_nodes(*final(graph)) == entity_graph_nodes(*old(graph)),
        entity_graph_links(*final(graph)) == entity_graph_links(*old(graph)).push(
            Link { source: source as int, target: target as int, weight },
        ),
{
    graph.add_edge(NodeIndex::new(source), NodeIndex::new(target), weight);
}

/// `Graph::node_weight`: the weight of the node at `index`, if there is one.
#[verifier::external_body]
pub(crate) fn entity_graph_node(graph: &DiGraph<Entity, Cardinality>, index: usize) -> (entity:
    Option<&Entity>)
    requires
        index <= u32::MAX,
    ensures
        index < entity_graph_nodes(*graph).len() ==> entity is Some && entity->0@
            == entity_graph_nodes(*graph)[index as int],
        index >= entity_graph_nodes(*graph).len() ==> entity is None,
{
    graph.node_weight(NodeIndex::new(index))
}

/// `Graph::edge_endpoints`: the indices of the two ends of the edge at
/// `index`, if there is one.
#[verifier::external_body]
pub(crate) fn entity_graph_edge_endpoints(
    graph: &DiGraph<Entity, Cardinality>,
    index: usize,
) -> (ends: Option<(usize, usize)>)
    requires
        index <= u32::MAX,
    ensures
        index < entity_graph_links(*graph).len() ==> match ends {
            Some(pair) => pair.0 == entity_graph_links(*graph)[index as int].source && pair.1
                == entity_graph_links(*graph)[index as int].target,
            None => false,
        },
        index >= entity_graph_links(*graph).len() ==> ends is None,
{
    match graph.edge_endpoints(EdgeIndex::new(index)) {
        Some((source, target)) => Some((source.index(), target.index())),
        None => None,
    }
}

/// `Graph::edge_weight`: the weight of the edge at `index`, if there is one.
#[verifier::external_body]
pub(crate) fn entity_graph_edge_weight(graph: &DiGraph<Entity, Cardinality>, index: usize) -> (weight:
    Option<Cardinality>)
    requires
        index <= u32::MAX,
    ensures
        index < entity_graph_links(*graph).len() ==> weight == Some(
            entity_graph_links(*graph)[index as int].weight,
        ),
        index >= entity_graph_links(*graph).len() ==> weight is None,
{
    graph.edge_weight(EdgeIndex::new(index)).copied()
}

/// `Graph::clone`: a graph with the same nodes and edges at the same
/// indices. The node weights are copied with `Entity::clone`, which keeps an
/// entity's value.
#[verifier::external_body]
pub(crate) fn entity_graph_clone(graph: &DiGraph<Entity, Cardinality>) -> (copy: DiGraph<
    Entity,
    Cardinality,
>)
    ensures
        entity_graph_nodes(copy) == entity_graph_nodes(*graph),
        entity_graph_links(copy) == entity_graph_links(*graph),
{
    graph.clone()
}

/// `Graph::new`: a graph without nodes or edges.
#[verifier::external_body]
pub(crate) fn service_graph_new() -> (graph: DiGraph<Microservice, MicroserviceCall>)
    ensures
        service_graph_nodes(graph) == Seq::<MicroserviceView>::empty(),
        service_graph_links(graph) == Seq::<Link<MicroserviceCall>>::empty(),
{
    DiGraph::new()
}

/// `Graph::node_count`.
#[verifier::external_body]
pub(crate) fn service_graph_node_count(graph: &DiGraph<Microservice, MicroserviceCall>) -> (count:
    usize)
    ensures
        count == service_graph_nodes(*graph).len(),
{
    graph.node_count()
}

/// `Graph::edge_count`.
#[verifier::external_body]
pub(crate) fn service_graph_edge_count(graph: &DiGraph<Microservice, MicroserviceCall>) -> (count:
    usize)
    ensures
        count == service_graph_links(*graph).len(),
{
    graph.edge_count()
}

/// `Graph::add_node`: the new node comes last and gets the next index; the
/// edges stay. `petgraph` panics when the graph is full.
#[verifier::external_body]
pub(crate) fn service_graph_add_node(
    graph: &mut DiGraph<Microservice, MicroserviceCall>,
    service: Microservice,
) -> (index: usize)
    requires
        service_graph_nodes(*old(graph)).len() < capacity(),
    ensures
        service_graph_nodes(*final(graph)) == service_graph_nodes(*old(graph)).push(service@),
        service_graph_links(*final(graph)) == service_graph_links(*old(graph)),
        index == service_graph_nodes(*old(graph)).len(),
{
    graph.add_node(service).index()
}

/// `Graph::add_edge`: the new edge comes last; the nodes stay. Parallel
/// edges are kept. `petgraph` panics when an end is no node of the graph or
/// the graph is full.
#[verifier::external_body]
pub(crate) fn service_graph_add_edge(
    graph: &mut DiGraph<Microservice, MicroserviceCall>,
    source: usize,
    target: usize,
    weight: MicroserviceCall,
)
    requires
        source < service_graph_nodes(*old(graph)).len(),
        target < service_graph_nodes(*old(graph)).len(),
        source <= u32::MAX,
        target <= u32::MAX,
        service_graph_links(*old(graph)).len() < capacity(),
    ensures
        service_graph_nodes(*final(graph)) == service_graph_nodes(*old(graph)),
        service_graph_links(*final(graph)) == service_graph_links(*old(graph)).push(
            Link { source: source as int, target: target as int, weight },
        ),
{
    graph.add_edge(NodeIndex::new(source), NodeIndex::new(target), weight);
}

/// `Graph::node_weight`: the weight of the node at `index`, if there is one.
#[verifier::external_body]
pub(crate) fn service_graph_node(
    graph: &DiGraph<Microservice, MicroserviceCall>,
    index: usize,
) -> (service: Option<&Microservice>)
    requires
        index <= u32::MAX,
    ensures
        index < service_graph_nodes(*graph).len() ==> service is Some && service->0@
            == service_graph_nodes(*graph)[index as int],
        index >= service_graph_nodes(*graph).len() ==> service is None,
{
    graph.node_weight(NodeIndex::new(index))
}

/// `Graph::edge_endpoints`: the indices of the two ends of the edge at
/// `index`, if there is one.
#[verifier::external_body]
pub(crate) fn service_graph_edge_endpoints(
    graph: &DiGraph<Microservice, MicroserviceCall>,
    index: usize,
) -> (ends: Option<(usize, usize)>)
    requires
        index <= u32::MAX,
    ensures
        index < service_graph_links(*graph).len() ==> match ends {
            Some(pair) => pair.0 == service_graph_links(*graph)[index as int].source && pair.1
                == service_graph_links(*graph)[index as int].target,
            None => false,
        },
        index >= service_graph_links(*graph).len() ==> ends is None,
{
    match graph.edge_endpoints(EdgeIndex::new(index)) {
        Some((source, target)) => Some((source.index(), target.index())),
        None => None,
    }
}

/// `Graph::edge_weight`: the weight of the edge at `index`, if there is one.
#[verifier::external_body]
pub(crate) fn service_graph_edge_weight(
    graph: &DiGraph<Microservice, MicroserviceCall>,
    index: usize,
) -> (weight: Option<MicroserviceCall>)
    requires
        index <= u32::MAX,
    ensures
        index < service_graph_links(*graph).len() ==> weight == Some(
            service_graph_links(*graph)[index as int].weight,
        ),
        index >= service_graph_links(*graph).len() ==> weight is None,
{
    graph.edge_weight(EdgeIndex::new(index)).copied()
}

} // verus!

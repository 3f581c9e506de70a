//! The service graph: one node for each service, and one edge for each call
//! whose target is a service of the graph.
//!
//! A call that names no service of the graph is dropped without a word, as a
//! field whose type names no entity is in the entity graph. A call that does
//! name one but is malformed fails the whole graph.

use vstd::prelude::*;
use petgraph::graph::DiGraph;
use crate::call::{CallRecordView, MicroserviceCall, ServiceRecord, ServiceRecordView};
use crate::digraph::{
    service_graph_add_edge, service_graph_add_node, service_graph_edge_count,
    service_graph_edge_endpoints, service_graph_edge_weight, service_graph_links,
    service_graph_new, service_graph_node, service_graph_node_count, service_graph_nodes,
};
use crate::edges::{Edge, EdgeView, Edges};
use crate::graph::{capacity, edge_view, edge_views, well_formed, Link};
use crate::lookup::{lemma_resolve_found, lemma_resolve_none, resolve};
use crate::model::{Microservice, MicroserviceView};

verus! {

/// The services of a list of records.
pub open spec fn services_of(records: Seq<ServiceRecordView>) -> Seq<MicroserviceView> {
    records.map_values(|record: ServiceRecordView| record.service)
}

/// The names of the services of a list of records.
pub open spec fn record_names(records: Seq<ServiceRecordView>) -> Seq<Seq<char>> {
    records.map_values(|record: ServiceRecordView| record.service.name)
}

/// What a call of the service at `source` adds to the graph.
pub enum CallEffect {
    /// The call names no service: it is dropped.
    Dropped,
    /// The call names a service and is well formed: it becomes an edge.
    Edge(Link<MicroserviceCall>),
    /// The call names a service but is malformed: the graph fails.
    Malformed,
}

/// The effect of one call: it goes to the first service that bears the name
/// it calls.
pub open spec fn call_effect(names: Seq<Seq<char>>, source: int, call: CallRecordView) -> CallEffect {
    match resolve(names, call.name) {
        None => CallEffect::Dropped,
        Some(target) => match MicroserviceCall::of_record(call.ty, call.method) {
            Ok(weight) => CallEffect::Edge(Link { source, target, weight }),
            Err(_) => CallEffect::Malformed,
        },
    }
}

/// The edges that the first `count` of the calls of the service at `source`
/// induce, in the order of the calls; `None` where one of them is malformed.
pub open spec fn links_of_calls(
    names: Seq<Seq<char>>,
    source: int,
    calls: Seq<CallRecordView>,
    count: int,
) -> Option<Seq<Link<MicroserviceCall>>>
    decreases count,
{
    if count <= 0 {
        Some(Seq::empty())
    } else {
        match links_of_calls(names, source, calls, count - 1) {
            None => None,
            Some(before) => match call_effect(names, source, calls[count - 1]) {
                CallEffect::Dropped => Some(before),
                CallEffect::Edge(link) => Some(before.push(link)),
                CallEffect::Malformed => None,
            },
        }
    }
}

/// The edges that the first `count` records induce, in the order of the
/// records; `None` where a call is malformed.
pub open spec fn links_of_records(records: Seq<ServiceRecordView>, count: int) -> Option<
    Seq<Link<MicroserviceCall>>,
>
    decreases count,
{
    if count <= 0 {
        Some(Seq::empty())
    } else {
        match links_of_records(records, count - 1) {
            None => None,
            Some(before) => match links_of_calls(
                record_names(records),
                count - 1,
                records[count - 1].calls,
                records[count - 1].calls.len() as int,
            ) {
                None => None,
                Some(added) => Some(before + added),
            },
        }
    }
}

/// The edges of the graph of `records`: for each service in turn, and for
/// each of its calls in turn, the edge that the call induces.
pub open spec fn service_links(records: Seq<ServiceRecordView>) -> Option<
    Seq<Link<MicroserviceCall>>,
> {
    links_of_records(records, records.len() as int)
}

/// An edge as three plain values: the indices of the calling and of the
/// called service, and the call.
pub open spec fn link_of(edge: (usize, usize, MicroserviceCall)) -> Link<MicroserviceCall> {
    Link { source: edge.0 as int, target: edge.1 as int, weight: edge.2 }
}

/// A list of edges given as plain values.
pub open spec fn links_of(edges: Seq<(usize, usize, MicroserviceCall)>) -> Seq<
    Link<MicroserviceCall>,
> {
    edges.map_values(|edge: (usize, usize, MicroserviceCall)| link_of(edge))
}

/// A graph of calls between services.
#[derive(Debug)]
pub struct MicroserviceGraph(DiGraph<Microservice, MicroserviceCall>);

impl MicroserviceGraph {
    /// The services of the graph, in node order.
    pub closed spec fn node_views(&self) -> Seq<MicroserviceView> {
        service_graph_nodes(self.0)
    }

    /// The edges of the graph, in edge order.
    pub closed spec fn links(&self) -> Seq<Link<MicroserviceCall>> {
        service_graph_links(self.0)
    }

    /// The edges of the graph, each with its two end services.
    pub open spec fn edge_views(&self) -> Seq<EdgeView<MicroserviceView, MicroserviceCall>> {
        edge_views(self.node_views(), self.links())
    }

    /// Every graph that this library hands out is well formed.
    pub open spec fn wf(&self) -> bool {
        well_formed(self.node_views(), self.links())
    }

    #[verifier::type_invariant]
    spec fn inv(&self) -> bool {
        self.wf()
    }

    /// Creates the graph with the given services as nodes and the given
    /// calls as edges, both in the order given. It is refused where there is
    /// no service, where an edge ends in no node, or where the graph would
    /// exceed the capacity of its index type.
    pub fn from_parts(services: &[Microservice], edges: &[(usize, usize, MicroserviceCall)]) -> (graph:
        Option<MicroserviceGraph>)
        ensures
            graph is Some <==> services.len() > 0 && well_formed(
                services.deep_view(),
                links_of(edges@),
            ),
            graph is Some ==> graph->0.node_views() == services.deep_view() && graph->0.links()
                == links_of(edges@),
            graph is Some ==> graph->0.wf(),
    {
        let ghost all = services.deep_view();
        let ghost wanted = links_of(edges@);
        if services.len() == 0 || services.len() > u32::MAX as usize || edges.len()
            > u32::MAX as usize {
            return None;
        }
        let mut graph = service_graph_new();
        let mut i: usize = 0;
        while i < services.len()
            invariant
                i <= services.len() <= capacity(),
                all == services.deep_view(),
                service_graph_nodes(graph) == all.take(i as int),
                service_graph_links(graph) == Seq::<Link<MicroserviceCall>>::empty(),
            decreases services.len() - i,
        {
            let _ = service_graph_add_node(&mut graph, services[i].clone());
            assert(all.take(i as int).push(all[i as int]) =~= all.take(i + 1));
            i = i + 1;
        }
        assert(all.take(services.len() as int) =~= all);
        let mut k: usize = 0;
        while k < edges.len()
            invariant
                k <= edges.len() <= capacity(),
                services.len() <= capacity(),
                all == services.deep_view(),
                wanted == links_of(edges@),
                service_graph_nodes(graph) == all,
                service_graph_links(graph) == wanted.take(k as int),
                well_formed(all, wanted.take(k as int)),
            decreases edges.len() - k,
        {
            let (source, target, weight) = edges[k];
            assert(wanted[k as int] == link_of(edges[k as int]));
            if source >= services.len() || target >= services.len() {
                return None;
            }
            service_graph_add_edge(&mut graph, source, target, weight);
            assert(wanted.take(k as int).push(wanted[k as int]) =~= wanted.take(k + 1));
            k = k + 1;
        }
        assert(wanted.take(edges.len() as int) =~= wanted);
        Some(MicroserviceGraph(graph))
    }

    /// Attempts to create the graph of a list of services with their calls.
    /// Each service becomes a node, also where two bear the same name. Each
    /// call becomes an edge from the calling service to the first service
    /// that bears the name it calls; a call that names no service is
    /// dropped. The graph is refused where there is no service, where a call
    /// that names a service is malformed, or where the graph would exceed
    /// the capacity of its index type.
    pub fn try_new(records: &[ServiceRecord]) -> (graph: Option<MicroserviceGraph>)
        ensures
            graph is Some <==> 0 < records.len() <= capacity() && service_links(
                records.deep_view(),
            ) is Some && service_links(records.deep_view())->0.len() <= capacity(),
            graph is Some ==> graph->0.node_views() == services_of(records.deep_view())
                && graph->0.links() == service_links(records.deep_view())->0,
            graph is Some ==> graph->0.wf(),
    {
        let ghost all = records.deep_view();
        let ghost names = record_names(all);
        let mut services: Vec<Microservice> = Vec::new();
        let mut edges: Vec<(usize, usize, MicroserviceCall)> = Vec::new();
        let mut i: usize = 0;
        while i < records.len()
            invariant
                i <= records.len(),
                all == records.deep_view(),
                names == record_names(all),
                services.deep_view() == services_of(all).take(i as int),
                links_of_records(all, i as int) == Some(links_of(edges@)),
                forall|k: int|
                    0 <= k < edges.len() ==> (#[trigger] edges[k]).0 < records.len() && edges[k].1
                        < records.len(),
            decreases records.len() - i,
        {
            let record = &records[i];
            let ghost before = links_of(edges@);
            let mut j: usize = 0;
            while j < record.calls.len()
                invariant
                    i < records.len(),
                    all == records.deep_view(),
                    names == record_names(all),
                    record == records[i as int],
                    j <= record.calls.len(),
                    links_of_records(all, i as int) == Some(before),
                    links_of_calls(names, i as int, all[i as int].calls, j as int) is Some,
                    links_of(edges@) == before + links_of_calls(
                        names,
                        i as int,
                        all[i as int].calls,
                        j as int,
                    )->0,
                    forall|k: int|
                        0 <= k < edges.len() ==> (#[trigger] edges[k]).0 < records.len()
                            && edges[k].1 < records.len(),
                decreases record.calls.len() - j,
            {
                let call = &record.calls[j];
                assert(all[i as int].calls[j as int] == call@);
                match find_service(records, &call.name) {
                    Some(target) => {
                        match call.call() {
                            Ok(weight) => {
                                let ghost so_far = links_of(edges@);
                                edges.push((i, target, weight));
                                assert(links_of(edges@) =~= so_far.push(
                                    link_of((i, target, weight)),
                                ));
                                assert(links_of(edges@) =~= before + links_of_calls(
                                    names,
                                    i as int,
                                    all[i as int].calls,
                                    j + 1,
                                )->0);
                            },
                            Err(_) => {
                                proof {
                                    lemma_malformed_stays(
                                        names,
                                        i as int,
                                        all[i as int].calls,
                                        j + 1,
                                        all[i as int].calls.len() as int,
                                    );
                                    lemma_refused_stays(all, i + 1, all.len() as int);
                                }
                                return None;
                            },
                        }
                    },
                    None => {},
                }
                j = j + 1;
            }
            let ghost prior = services.deep_view();
            services.push(record.service.clone());
            assert(services.deep_view() =~= prior.push(all[i as int].service));
            assert(prior.push(all[i as int].service) =~= services_of(all).take(i + 1));
            assert(all[i as int].calls.len() == record.calls.len());
            i = i + 1;
        }
        assert(services_of(all).take(records.len() as int) =~= services_of(all));
        proof {
            let links = links_of(edges@);
            assert forall|k: int| 0 <= k < links.len() implies 0 <= (#[trigger] links[k]).source
                < services.deep_view().len() && 0 <= links[k].target
                < services.deep_view().len() by {
                assert(links[k] == link_of(edges[k]));
            }
        }
        MicroserviceGraph::from_parts(services.as_slice(), edges.as_slice())
    }

    /// The number of nodes.
    pub fn node_count(&self) -> (count: usize)
        ensures
            count == self.node_views().len(),
    {
        service_graph_node_count(&self.0)
    }

    /// The number of edges.
    pub fn edge_count(&self) -> (count: usize)
        ensures
            count == self.links().len(),
    {
        service_graph_edge_count(&self.0)
    }

    /// The service at a node.
    pub fn node(&self, index: usize) -> (service: &Microservice)
        requires
            index < self.node_views().len(),
        ensures
            service@ == self.node_views()[index as int],
    {
        proof {
            use_type_invariant(&*self);
        }
        service_graph_node(&self.0, index).unwrap()
    }

    /// The two end nodes of an edge, the calling service first, and its
    /// call.
    pub fn edge(&self, index: usize) -> (edge: (usize, usize, MicroserviceCall))
        requires
            index < self.links().len(),
        ensures
            link_of(edge) == self.links()[index as int],
            edge.0 < self.node_views().len(),
            edge.1 < self.node_views().len(),
    {
        proof {
            use_type_invariant(&*self);
        }
        let ends = service_graph_edge_endpoints(&self.0, index).unwrap();
        let weight = service_graph_edge_weight(&self.0, index).unwrap();
        (ends.0, ends.1, weight)
    }

    /// Gets all of the nodes in the graph.
    pub fn nodes(&self) -> (nodes: Vec<Microservice>)
        ensures
            nodes.deep_view() == self.node_views(),
    {
        let count = self.node_count();
        let mut nodes: Vec<Microservice> = Vec::new();
        let mut i: usize = 0;
        while i < count
            invariant
                i <= count == self.node_views().len(),
                nodes.len() == i,
                forall|k: int| 0 <= k < i ==> nodes[k]@ == self.node_views()[k],
            decreases count - i,
        {
            nodes.push(self.node(i).clone());
            i = i + 1;
        }
        assert(nodes.deep_view() =~= self.node_views());
        nodes
    }

    /// Gets the directed edges of the graph, each with copies of its two end
    /// services.
    pub fn edges(&self) -> (edges: Edges<Microservice, MicroserviceCall>)
        ensures
            edges.deep_view() == self.edge_views(),
    {
        let count = self.edge_count();
        let mut edges: Vec<Edge<Microservice, MicroserviceCall>> = Vec::new();
        let mut i: usize = 0;
        while i < count
            invariant
                i <= count == self.links().len(),
                edges.len() == i,
                forall|k: int|
                    0 <= k < i ==> (#[trigger] edges[k]).deep_view() == edge_view(
                        self.node_views(),
                        self.links()[k],
                    ),
            decreases count - i,
        {
            let (source, target, weight) = self.edge(i);
            let from = self.node(source).clone();
            let to = self.node(target).clone();
            edges.push(Edge { from, to, weight });
            i = i + 1;
        }
        let edges = Edges::new(edges);
        assert(edges.deep_view() =~= self.edge_views());
        edges
    }
}

impl AsRef<DiGraph<Microservice, MicroserviceCall>> for MicroserviceGraph {
    fn as_ref(&self) -> (graph: &DiGraph<Microservice, MicroserviceCall>)
        ensures
            service_graph_nodes(*graph) == self.node_views(),
            service_graph_links(*graph) == self.links(),
    {
        &self.0
    }
}

/// Once a call is malformed, no later call mends it.
pub proof fn lemma_malformed_stays(
    names: Seq<Seq<char>>,
    source: int,
    calls: Seq<CallRecordView>,
    a: int,
    b: int,
)
    requires
        a <= b,
        links_of_calls(names, source, calls, a) is None,
    ensures
        links_of_calls(names, source, calls, b) is None,
    decreases b - a,
{
    if a < b {
        lemma_malformed_stays(names, source, calls, a, b - 1);
    }
}

/// Once a record is refused, no later record mends it.
pub proof fn lemma_refused_stays(records: Seq<ServiceRecordView>, a: int, b: int)
    requires
        a <= b,
        links_of_records(records, a) is None,
    ensures
        links_of_records(records, b) is None,
    decreases b - a,
{
    if a < b {
        lemma_refused_stays(records, a, b - 1);
    }
}

/// The first record whose service bears `name`.
fn find_service(records: &[ServiceRecord], name: &String) -> (found: Option<usize>)
    ensures
        match found {
            Some(index) => resolve(record_names(records.deep_view()), name@) == Some(index as int)
                && index < records.len(),
            None => resolve(record_names(records.deep_view()), name@) is None,
        },
{
    let ghost names = record_names(records.deep_view());
    let mut k: usize = 0;
    while k < records.len()
        invariant
            k <= records.len() == names.len(),
            names == record_names(records.deep_view()),
            forall|earlier: int| 0 <= earlier < k ==> names[earlier] != name@,
        decreases records.len() - k,
    {
        assert(names[k as int] == records[k as int].service.name@);
        if records[k].service.name == *name {
            proof {
                lemma_resolve_found(names, name@, k as int);
            }
            return Some(k);
        }
        k = k + 1;
    }
    proof {
        lemma_resolve_none(names, name@);
        if names.contains(name@) {
            let at = choose|at: int| 0 <= at < names.len() && names[at] == name@;
            assert(names[at] != name@);
        }
    }
    None
}

} // verus!

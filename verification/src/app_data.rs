//! The result of an analysis: the diagrams of the system and of each of its
//! services.

use vstd::prelude::*;
use crate::bounded_context::ErrorView as BoundedContextErrorView;
use crate::call::ServiceRecord;
use crate::entity_graph::{stays, EntityGraph};
use crate::graph::{capacity, kept_links, Link};
use crate::mermaid::{entity_diagram, service_diagram, MermaidString};
use crate::model::{clone_entities, Cardinality, Entity, EntityView, MicroserviceView};
use crate::service_graph::{service_links, services_of, MicroserviceGraph};

verus! {

/// Why an analysis failed.
#[derive(Debug)]
pub enum Error {
    CloneRepo(String),
    Io(String),
    AppData(String),
    BoundedContext(crate::bounded_context::Error),
}

/// The value of an [`Error`].
pub enum ErrorView {
    CloneRepo(Seq<char>),
    Io(Seq<char>),
    AppData(Seq<char>),
    BoundedContext(BoundedContextErrorView),
}

impl View for Error {
    type V = ErrorView;

    open spec fn view(&self) -> ErrorView {
        match self {
            Error::CloneRepo(text) => ErrorView::CloneRepo(text@),
            Error::Io(text) => ErrorView::Io(text@),
            Error::AppData(text) => ErrorView::AppData(text@),
            Error::BoundedContext(error) => ErrorView::BoundedContext(error@),
        }
    }
}

impl ErrorView {
    /// The message of an error.
    pub open spec fn message(self) -> Seq<char> {
        match self {
            ErrorView::CloneRepo(text) => "Could not clone repository: "@ + text,
            ErrorView::Io(text) => "Encountered an IO error: "@ + text,
            ErrorView::AppData(text) => "Could not create an AppData from the provided ReSSA: "@
                + text,
            ErrorView::BoundedContext(_) => "Could not create bounded context"@,
        }
    }
}

impl Error {
    /// The message of this error.
    pub fn to_string(&self) -> (message: String)
        ensures
            message@ == self@.message(),
    {
        match self {
            Error::CloneRepo(text) => {
                let mut message = "Could not clone repository: ".to_owned();
                message.append(text.as_str());
                message
            },
            Error::Io(text) => {
                let mut message = "Encountered an IO error: ".to_owned();
                message.append(text.as_str());
                message
            },
            Error::AppData(text) => {
                let mut message = "Could not create an AppData from the provided ReSSA: ".to_owned();
                message.append(text.as_str());
                message
            },
            Error::BoundedContext(_) => "Could not create bounded context".to_owned(),
        }
    }
}

impl From<crate::bounded_context::Error> for Error {
    fn from(error: crate::bounded_context::Error) -> (wrapped: Error)
        ensures
            wrapped@ == ErrorView::BoundedContext(error@),
    {
        Error::BoundedContext(error)
    }
}

impl vstd::std_specs::convert::FromSpecImpl<crate::bounded_context::Error> for Error {
    open spec fn obeys_from_spec() -> bool {
        true
    }

    open spec fn from_spec(error: crate::bounded_context::Error) -> Error {
        Error::BoundedContext(error)
    }
}

/// An analyzed microservice within a project.
#[derive(Debug, Default)]
pub struct Microservice {
    /// The name of the microservice.
    pub name: String,
    /// The entity diagram for the analyzed microservice.
    pub entity_diagram: Option<MermaidString>,
}

/// The analyzed data for the provided project.
#[derive(Debug, Default)]
pub struct AppData {
    /// The application or project name.
    pub name: String,
    /// The microservice or endpoint communication diagram for the analyzed
    /// project.
    pub communication_diagram: Option<MermaidString>,
    /// The entity diagram for the analyzed project.
    pub entity_diagram: Option<MermaidString>,
    /// The microservices in the analyzed project.
    pub microservices: Vec<Microservice>,
}

/// Whether `diagram` holds this text.
pub open spec fn shows(diagram: Option<MermaidString>, text: Seq<char>) -> bool {
    diagram is Some && diagram->0@ == text
}

/// The diagram of a graph of entities with the entities of `removed`
/// filtered out: the other nodes and the edges between them, in their
/// order.
pub open spec fn filtered_diagram(
    nodes: Seq<EntityView>,
    links: Seq<Link<Cardinality>>,
    removed: Seq<EntityView>,
) -> Seq<char> {
    entity_diagram(nodes.filter(stays(removed)), kept_links(nodes, links, stays(removed)))
}

/// The graph of the calls between the services of a system, or the error
/// that says it could not be made.
pub fn communication_graph(records: &[ServiceRecord]) -> (graph: Result<MicroserviceGraph, Error>)
    ensures
        graph is Ok <==> 0 < records.len() <= capacity() && service_links(records.deep_view())
            is Some && service_links(records.deep_view())->0.len() <= capacity(),
        graph is Ok ==> graph->Ok_0.node_views() == services_of(records.deep_view())
            && graph->Ok_0.links() == service_links(records.deep_view())->0 && graph->Ok_0.wf(),
        graph is Err ==> graph->Err_0@ == ErrorView::AppData(
            "Could not create microservice graph"@,
        ),
{
    match MicroserviceGraph::try_new(records) {
        Some(graph) => Ok(graph),
        None => Err(Error::AppData("Could not create microservice graph".to_owned())),
    }
}

/// The entities that the first `count` services refer to, service by
/// service.
pub open spec fn entities_of(services: Seq<MicroserviceView>, count: int) -> Seq<EntityView>
    decreases count,
{
    if count <= 0 {
        Seq::empty()
    } else {
        entities_of(services, count - 1) + services[count - 1].ref_entities
    }
}

/// Gathers the entities that the services of a graph refer to, service by
/// service. An entity that several services refer to is gathered once for
/// each.
pub fn gather_entities(graph: &MicroserviceGraph) -> (entities: Vec<Entity>)
    ensures
        entities.deep_view() == entities_of(graph.node_views(), graph.node_views().len() as int),
{
    let count = graph.node_count();
    let mut entities: Vec<Entity> = Vec::new();
    let mut i: usize = 0;
    while i < count
        invariant
            i <= count == graph.node_views().len(),
            entities.deep_view() == entities_of(graph.node_views(), i as int),
        decreases count - i,
    {
        let service = graph.node(i);
        let ghost before = entities.deep_view();
        let mut more = clone_entities(service.ref_entities.as_slice());
        entities.append(&mut more);
        assert(entities.deep_view() =~= before + service@.ref_entities);
        i = i + 1;
    }
    entities
}

impl AppData {
    /// Puts the result of an analysis together from the graph of the
    /// services, the entities that were gathered from them, and the graph
    /// of the reconciled entities. Each service gets the diagram of the
    /// reconciled graph with the gathered entities filtered out.
    pub fn assemble(services: MicroserviceGraph, entities: &[Entity], bounded: EntityGraph) -> (data:
        AppData)
        ensures
            data.name@ == "system"@,
            shows(
                data.communication_diagram,
                service_diagram(services.node_views(), services.links()),
            ),
            shows(data.entity_diagram, entity_diagram(bounded.node_views(), bounded.links())),
            data.microservices.len() == services.node_views().len(),
            forall|i: int|
                0 <= i < data.microservices.len() ==> {
                    &&& (#[trigger] data.microservices[i]).name@ == services.node_views()[i].name
                    &&& shows(
                        data.microservices[i].entity_diagram,
                        filtered_diagram(
                            bounded.node_views(),
                            bounded.links(),
                            entities.deep_view(),
                        ),
                    )
                },
    {
        let of_entities = MermaidString::of_entities(&bounded);
        let of_calls = MermaidString::of_services(&services);
        let mut view = bounded.clone();
        view.filter_entities(entities);
        let of_view = MermaidString::of_entities(&view);
        let count = services.node_count();
        let mut microservices: Vec<Microservice> = Vec::new();
        let mut i: usize = 0;
        while i < count
            invariant
                i <= count == services.node_views().len(),
                microservices.len() == i,
                of_view@ == filtered_diagram(
                    bounded.node_views(),
                    bounded.links(),
                    entities.deep_view(),
                ),
                forall|k: int|
                    0 <= k < i ==> (#[trigger] microservices[k]).name@
                        == services.node_views()[k].name && shows(
                        microservices[k].entity_diagram,
                        of_view@,
                    ),
            decreases count - i,
        {
            microservices.push(
                Microservice {
                    name: services.node(i).name.clone(),
                    entity_diagram: Some(of_view.clone()),
                },
            );
            i = i + 1;
        }
        AppData {
            name: "system".to_owned(),
            communication_diagram: Some(of_calls),
            entity_diagram: Some(of_entities),
            microservices,
        }
    }
}

} // verus!

//! Architecture diagrams for systems of microservices.
//!
//! From the facts that were extracted from the services of a system, the
//! library builds two graphs, one of the entities and one of the calls
//! between the services, has the entities of the services reconciled by a
//! remote service, and renders the graphs as diagrams in text.
//!
//! - [`model`] and [`call`] hold the facts: fields, entities, services and
//!   calls.
//! - [`entity_graph`] and [`service_graph`] build the graphs. Both hold
//!   their nodes and edges in a `petgraph` graph; [`digraph`] says what is
//!   taken on trust of it, and [`graph`] holds what is proved of graphs as
//!   values.
//! - [`bounded_context`] makes the request to the reconciling service,
//!   decides on each step of the exchange and turns the answer into
//!   entities. The exchange itself is the caller's part.
//! - [`mermaid`] renders a graph, and [`app_data`] puts the diagrams of a
//!   system together.
//! - [`ressa`] minifies the scripts of the patterns that the extraction
//!   runs.
//!
//! A field whose type names no entity, and a call that names no service,
//! gives no edge and no error: both graphs drop what they cannot resolve.
//! A list without entities, or without services, gives no graph: a graph is
//! made of at least one node, and can lose its nodes only by filtering.

pub mod model;
pub mod call;
pub mod lookup;
pub mod sequences;
pub mod edges;
pub mod graph;
pub mod digraph;
pub mod entity_graph;
pub mod service_graph;
pub mod mermaid;
pub mod bounded_context;
pub mod app_data;
pub mod ressa;

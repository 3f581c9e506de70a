use prophet::call::{CallRecord, HttpMethod, MicroserviceCall, ServiceRecord};
use prophet::model::{DatabaseType, Entity, Language, Microservice};
use prophet::service_graph::MicroserviceGraph;

fn service(name: &str) -> Microservice {
    Microservice { name: name.to_string(), language: Language::Java, ref_entities: vec![] }
}

fn record(name: &str, calls: Vec<CallRecord>) -> ServiceRecord {
    ServiceRecord { service: service(name), calls }
}

#[test]
fn calls_become_edges_in_their_order() {
    let graph = MicroserviceGraph::try_new(&[
        record(
            "A",
            vec![CallRecord::new("C", "RPC", None), CallRecord::new("B", "HTTP", Some("GET"))],
        ),
        record("B", vec![CallRecord::new("A", "HTTP", Some("DELETE"))]),
        record("C", vec![]),
    ])
    .unwrap();
    assert_eq!(graph.nodes(), vec![service("A"), service("B"), service("C")]);
    assert_eq!(graph.edge_count(), 3);
    assert_eq!(graph.edge(0), (0, 2, MicroserviceCall::Rpc));
    assert_eq!(graph.edge(1), (0, 1, MicroserviceCall::Http(HttpMethod::Get)));
    assert_eq!(graph.edge(2), (1, 0, MicroserviceCall::Http(HttpMethod::Delete)));
    let edges = graph.edges().into_inner();
    assert_eq!(edges[1].from, service("A"));
    assert_eq!(edges[1].to, service("B"));
    assert_eq!(edges[1].weight, MicroserviceCall::Http(HttpMethod::Get));
}

#[test]
fn call_to_an_unknown_service_is_dropped() {
    let graph = MicroserviceGraph::try_new(&[
        record(
            "A",
            vec![CallRecord::new("Nowhere", "HTTP", Some("GET")), CallRecord::new("B", "RPC", None)],
        ),
        record("B", vec![]),
    ])
    .unwrap();
    assert_eq!(graph.node_count(), 2);
    assert_eq!(graph.edge_count(), 1);
    assert_eq!(graph.edge(0), (0, 1, MicroserviceCall::Rpc));
}

#[test]
fn malformed_call_to_an_unknown_service_is_dropped_too() {
    let graph = MicroserviceGraph::try_new(&[record(
        "A",
        vec![CallRecord::new("Nowhere", "SOAP", None)],
    )])
    .unwrap();
    assert_eq!(graph.edge_count(), 0);
}

#[test]
fn malformed_call_to_a_service_fails_the_graph() {
    let bad_method =
        [record("A", vec![CallRecord::new("B", "HTTP", Some("FETCH"))]), record("B", vec![])];
    assert!(MicroserviceGraph::try_new(&bad_method).is_none());
    let bad_kind = [record("A", vec![CallRecord::new("B", "SOAP", None)]), record("B", vec![])];
    assert!(MicroserviceGraph::try_new(&bad_kind).is_none());
    let rpc_with_method =
        [record("A", vec![CallRecord::new("A", "RPC", Some("GET"))]), record("B", vec![])];
    assert!(MicroserviceGraph::try_new(&rpc_with_method).is_none());
    let http_without_method =
        [record("A", vec![]), record("B", vec![CallRecord::new("A", "HTTP", None)])];
    assert!(MicroserviceGraph::try_new(&http_without_method).is_none());
}

#[test]
fn no_services_give_no_graph() {
    assert!(MicroserviceGraph::try_new(&[]).is_none());
    assert!(MicroserviceGraph::try_new(&[record("A", vec![])]).is_some());
}

#[test]
fn services_of_one_name_are_separate_nodes() {
    let graph = MicroserviceGraph::try_new(&[
        record("A", vec![]),
        record("A", vec![CallRecord::new("A", "RPC", None)]),
    ])
    .unwrap();
    assert_eq!(graph.node_count(), 2);
    assert_eq!(graph.edge(0), (1, 0, MicroserviceCall::Rpc));
}

#[test]
fn services_keep_their_entities() {
    let with_entities = Microservice {
        name: "shop".to_string(),
        language: Language::Python,
        ref_entities: vec![Entity::new("Order", vec![], DatabaseType::MongoDB)],
    };
    let graph = MicroserviceGraph::try_new(&[ServiceRecord {
        service: with_entities.clone(),
        calls: vec![],
    }])
    .unwrap();
    assert_eq!(graph.node(0), &with_entities);
}

#[test]
fn graph_from_parts() {
    let services = [service("A"), service("B")];
    let graph = MicroserviceGraph::from_parts(
        &services,
        &[(1, 0, MicroserviceCall::Rpc), (1, 1, MicroserviceCall::Http(HttpMethod::Put))],
    )
    .unwrap();
    assert_eq!(graph.nodes(), services.to_vec());
    assert_eq!(graph.edge(0), (1, 0, MicroserviceCall::Rpc));
    assert_eq!(graph.edge(1), (1, 1, MicroserviceCall::Http(HttpMethod::Put)));
}

#[test]
fn graph_from_parts_refuses_an_edge_that_ends_nowhere() {
    let services = [service("A"), service("B")];
    assert!(MicroserviceGraph::from_parts(&services, &[(0, 2, MicroserviceCall::Rpc)]).is_none());
    assert!(MicroserviceGraph::from_parts(&services, &[(2, 0, MicroserviceCall::Rpc)]).is_none());
    assert!(MicroserviceGraph::from_parts(&[], &[(0, 0, MicroserviceCall::Rpc)]).is_none());
    assert!(MicroserviceGraph::from_parts(&[], &[]).is_none());
    assert!(MicroserviceGraph::from_parts(&services, &[]).is_some());
}

#[test]
fn graph_can_be_read_as_a_petgraph_graph() {
    let graph = MicroserviceGraph::try_new(&[
        record("A", vec![CallRecord::new("B", "RPC", None)]),
        record("B", vec![]),
    ])
    .unwrap();
    let inner: &petgraph::graph::DiGraph<Microservice, MicroserviceCall> = graph.as_ref();
    assert_eq!(inner.node_count(), 2);
    assert_eq!(inner.edge_count(), 1);
    assert!(petgraph::algo::has_path_connecting(
        inner,
        petgraph::graph::NodeIndex::new(0),
        petgraph::graph::NodeIndex::new(1),
        None
    ));
    assert!(!petgraph::algo::has_path_connecting(
        inner,
        petgraph::graph::NodeIndex::new(1),
        petgraph::graph::NodeIndex::new(0),
        None
    ));
}

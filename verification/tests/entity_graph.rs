use prophet::edges::{Edge, Edges};
use prophet::entity_graph::EntityGraph;
use prophet::model::{Cardinality, DatabaseType, Entity, Field};

fn entity(name: &str, fields: Vec<Field>) -> Entity {
    Entity::new(name, fields, DatabaseType::MySQL)
}

fn one_and_two() -> Vec<Entity> {
    vec![
        entity("EntityOne", vec![Field::new("f1", "EntityTwo", true)]),
        entity(
            "EntityTwo",
            vec![Field::new("x", "int", false), Field::new("other", "EntityOne", false)],
        ),
    ]
}

fn names(edges: &[Edge<Entity, Cardinality>]) -> Vec<(String, String, Cardinality)> {
    edges.iter().map(|edge| (edge.from.name.clone(), edge.to.name.clone(), edge.weight)).collect()
}

fn edge(from: &str, to: &str, weight: Cardinality) -> (String, String, Cardinality) {
    (from.to_string(), to.to_string(), weight)
}

fn node_names(graph: &EntityGraph) -> Vec<String> {
    graph.nodes().into_iter().map(|node| node.name).collect()
}

fn edge_names(graph: &EntityGraph) -> Vec<String> {
    graph
        .edges()
        .into_inner()
        .into_iter()
        .map(|edge| format!("{}->{}:{}", edge.from.name, edge.to.name, edge.weight.to_string()))
        .collect()
}

#[test]
fn collection_field_gives_many_and_plain_field_gives_one() {
    let graph = EntityGraph::try_new(&one_and_two()).unwrap();
    assert_eq!(graph.nodes(), one_and_two());
    let edges = graph.edges().into_inner();
    assert_eq!(
        names(&edges),
        vec![
            edge("EntityOne", "EntityTwo", Cardinality::Many),
            edge("EntityTwo", "EntityOne", Cardinality::One),
        ]
    );
    assert_eq!(edges[0].from, one_and_two()[0]);
    assert_eq!(edges[0].to, one_and_two()[1]);
}

#[test]
fn field_of_a_type_that_names_no_entity_gives_no_edge() {
    let graph = EntityGraph::try_new(&[entity(
        "A",
        vec![Field::new("x", "int", false), Field::new("y", "String", true)],
    )])
    .unwrap();
    assert_eq!(graph.node_count(), 1);
    assert_eq!(graph.edge_count(), 0);
    assert!(graph.edges().into_inner().is_empty());
}

#[test]
fn no_entities_give_no_graph() {
    assert!(EntityGraph::try_new(&[]).is_none());
    assert!(EntityGraph::try_new(&Vec::new()).is_none());
    assert!(EntityGraph::try_new(&[entity("A", vec![])]).is_some());
}

#[test]
fn several_fields_give_parallel_edges() {
    let graph = EntityGraph::try_new(&[
        entity(
            "A",
            vec![
                Field::new("first", "B", false),
                Field::new("second", "B", false),
                Field::new("all", "B", true),
            ],
        ),
        entity("B", vec![]),
    ])
    .unwrap();
    assert_eq!(
        names(&graph.edges().into_inner()),
        vec![
            edge("A", "B", Cardinality::One),
            edge("A", "B", Cardinality::One),
            edge("A", "B", Cardinality::Many),
        ]
    );
}

#[test]
fn field_of_its_own_entity_gives_a_loop() {
    let graph = EntityGraph::try_new(&[entity("Node", vec![Field::new("next", "Node", false)])])
        .unwrap();
    assert_eq!(graph.edge(0), (0, 0, Cardinality::One));
}

#[test]
fn edges_follow_entities_then_fields() {
    let graph = EntityGraph::try_new(&[
        entity("A", vec![Field::new("c", "C", false), Field::new("b", "B", true)]),
        entity("B", vec![Field::new("a", "A", false)]),
        entity("C", vec![]),
    ])
    .unwrap();
    assert_eq!(graph.edge_count(), 3);
    assert_eq!(graph.edge(0), (0, 2, Cardinality::One));
    assert_eq!(graph.edge(1), (0, 1, Cardinality::Many));
    assert_eq!(graph.edge(2), (1, 0, Cardinality::One));
    assert_eq!(graph.node(2).name, "C");
}

#[test]
fn entities_of_one_name_are_separate_nodes() {
    let first = entity("A", vec![Field::new("x", "int", false)]);
    let second = entity("A", vec![Field::new("b", "B", false)]);
    let graph = EntityGraph::try_new(&[
        first.clone(),
        second.clone(),
        entity("B", vec![Field::new("a", "A", false)]),
    ])
    .unwrap();
    assert_eq!(graph.node_count(), 3);
    assert_eq!(graph.nodes()[0], first);
    assert_eq!(graph.nodes()[1], second);
    // The edge of the second `A` leaves the second `A`; the edge to `A` ends in the first.
    assert_eq!(graph.edge(0), (1, 2, Cardinality::One));
    assert_eq!(graph.edge(1), (2, 0, Cardinality::One));
}

#[test]
fn filter_removes_the_entity_and_its_edges() {
    let mut graph = EntityGraph::try_new(&[
        entity("A", vec![Field::new("b", "B", false), Field::new("c", "C", true)]),
        entity("B", vec![Field::new("c", "C", false)]),
        entity("C", vec![Field::new("a", "A", false)]),
    ])
    .unwrap();
    graph.filter_entities(&[entity("B", vec![Field::new("c", "C", false)])]);
    assert_eq!(node_names(&graph), vec!["A", "C"]);
    assert_eq!(edge_names(&graph), vec!["A->C:*", "C->A:1"]);
    assert_eq!(graph.edge(0), (0, 1, Cardinality::Many));
    assert_eq!(graph.edge(1), (1, 0, Cardinality::One));
}

#[test]
fn filter_removes_the_first_node_and_keeps_the_rest_in_order() {
    let mut graph = EntityGraph::try_new(&[
        entity("A", vec![Field::new("b", "B", false)]),
        entity("B", vec![Field::new("c", "C", false)]),
        entity("C", vec![Field::new("b", "B", true), Field::new("me", "C", false)]),
    ])
    .unwrap();
    graph.filter_entities(&[entity("A", vec![Field::new("b", "B", false)])]);
    assert_eq!(node_names(&graph), vec!["B", "C"]);
    assert_eq!(edge_names(&graph), vec!["B->C:1", "C->B:*", "C->C:1"]);
    for edge in graph.edges().into_inner() {
        assert!(graph.nodes().contains(&edge.from));
        assert!(graph.nodes().contains(&edge.to));
    }
}

#[test]
fn filter_removes_every_named_entity() {
    let all = vec![
        entity("A", vec![Field::new("b", "B", false)]),
        entity("B", vec![Field::new("a", "A", false)]),
        entity("C", vec![Field::new("a", "A", false)]),
        entity("D", vec![Field::new("c", "C", true)]),
    ];
    let mut graph = EntityGraph::try_new(&all).unwrap();
    graph.filter_entities(&[all[0].clone(), all[3].clone(), all[1].clone()]);
    assert_eq!(node_names(&graph), vec!["C"]);
    assert_eq!(graph.edge_count(), 0);
    graph.filter_entities(&all);
    assert_eq!(graph.node_count(), 0);
}

#[test]
fn filter_with_strangers_changes_nothing() {
    let mut graph = EntityGraph::try_new(&one_and_two()).unwrap();
    graph.filter_entities(&[entity("Other", vec![]), entity("EntityOne", vec![])]);
    assert_eq!(graph.nodes(), one_and_two());
    assert_eq!(
        names(&graph.edges().into_inner()),
        vec![
            edge("EntityOne", "EntityTwo", Cardinality::Many),
            edge("EntityTwo", "EntityOne", Cardinality::One),
        ]
    );
    graph.filter_entities(&[]);
    assert_eq!(graph.nodes(), one_and_two());
    assert_eq!(graph.edge_count(), 2);
}

#[test]
fn filter_takes_a_list_that_is_larger_than_the_graph() {
    let mut graph = EntityGraph::try_new(&[entity("A", vec![])]).unwrap();
    graph.filter_entities(&[
        entity("X", vec![]),
        entity("A", vec![]),
        entity("Y", vec![]),
        entity("A", vec![]),
        entity("Z", vec![]),
    ]);
    assert_eq!(graph.node_count(), 0);
    graph.filter_entities(&[entity("A", vec![])]);
    assert_eq!(graph.node_count(), 0);
    assert_eq!(graph.edge_count(), 0);
}

#[test]
fn filter_removes_every_node_that_equals_a_named_entity() {
    let twin = entity("A", vec![Field::new("b", "B", false)]);
    let mut graph =
        EntityGraph::try_new(&[twin.clone(), entity("B", vec![]), twin.clone()]).unwrap();
    assert_eq!(graph.edge_count(), 2);
    graph.filter_entities(&[twin]);
    assert_eq!(node_names(&graph), vec!["B"]);
    assert_eq!(graph.edge_count(), 0);
}

#[test]
fn filter_goes_by_the_whole_value() {
    let mut graph = EntityGraph::try_new(&one_and_two()).unwrap();
    graph.filter_entities(&[Entity::new(
        "EntityOne",
        vec![Field::new("f1", "EntityTwo", true)],
        DatabaseType::MongoDB,
    )]);
    assert_eq!(graph.node_count(), 2);
}

#[test]
fn clone_is_a_graph_of_its_own() {
    let graph = EntityGraph::try_new(&one_and_two()).unwrap();
    let mut copy = graph.clone();
    copy.filter_entities(&one_and_two());
    assert_eq!(copy.node_count(), 0);
    assert_eq!(graph.nodes(), one_and_two());
    assert_eq!(graph.edge_count(), 2);
}

#[test]
fn edges_can_be_wrapped_and_unwrapped() {
    let edges = Edges::new(vec![Edge { from: 1u8, to: 2u8, weight: 'w' }]);
    let inner = edges.into_inner();
    assert_eq!(inner.len(), 1);
    assert_eq!((inner[0].from, inner[0].to, inner[0].weight), (1, 2, 'w'));
}

#[test]
fn entity_graph_can_be_read_as_a_petgraph_graph() {
    let graph = EntityGraph::try_new(&one_and_two()).unwrap();
    let inner: &petgraph::graph::DiGraph<Entity, Cardinality> = graph.as_ref();
    assert_eq!(inner.node_count(), 2);
    assert_eq!(inner.edge_count(), 2);
    assert!(petgraph::algo::is_cyclic_directed(inner));
}

#[test]
fn filter_keeps_the_order_of_the_nodes_that_stay() {
    let n = |s: &str| Entity::new(s, vec![], DatabaseType::MySQL);
    let mut g = EntityGraph::try_new(&[n("A"), n("B"), n("C")]).unwrap();
    g.filter_entities(&[n("A")]);
    assert_eq!(g.nodes(), vec![n("B"), n("C")]);
    let all: Vec<Entity> =
        ["A", "B", "C", "D", "E"].iter().map(|name| entity(name, vec![])).collect();
    let mut graph = EntityGraph::try_new(&all).unwrap();
    graph.filter_entities(&[all[0].clone(), all[4].clone()]);
    assert_eq!(node_names(&graph), vec!["B", "C", "D"]);
    graph.filter_entities(&[all[2].clone()]);
    assert_eq!(node_names(&graph), vec!["B", "D"]);
}

#[test]
fn filter_keeps_the_order_of_the_edges_that_stay() {
    let mut graph = EntityGraph::try_new(&[
        entity("A", vec![Field::new("d", "D", false), Field::new("b", "B", true)]),
        entity("B", vec![Field::new("d", "D", true)]),
        entity("C", vec![Field::new("a", "A", false), Field::new("d", "D", false)]),
        entity("D", vec![Field::new("a", "A", false), Field::new("c", "C", true)]),
    ])
    .unwrap();
    assert_eq!(
        edge_names(&graph),
        vec!["A->D:1", "A->B:*", "B->D:*", "C->A:1", "C->D:1", "D->A:1", "D->C:*"]
    );
    graph.filter_entities(&[entity("B", vec![Field::new("d", "D", true)])]);
    assert_eq!(node_names(&graph), vec!["A", "C", "D"]);
    assert_eq!(edge_names(&graph), vec!["A->D:1", "C->A:1", "C->D:1", "D->A:1", "D->C:*"]);
    assert_eq!(graph.edge(0), (0, 2, Cardinality::One));
    assert_eq!(graph.edge(4), (2, 1, Cardinality::Many));
}

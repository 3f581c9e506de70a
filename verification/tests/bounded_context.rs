use prophet::bounded_context::{
    bounded_context_graph, decide, decide_on_status, Action, BoundedContextEntity,
    BoundedContextField, BoundedContextModule, BoundedContextRequest, BoundedContextSystem, Error,
    Event, MergedEntity, MergedEntitySystem, MergedField, MergedName, SUCCESS_FIRST, SUCCESS_LAST,
};
use prophet::entity_graph::EntityGraph;
use prophet::mermaid::MermaidString;
use prophet::model::{DatabaseType, Entity, Field, Language, Microservice};

fn merged_name(name: &str, full_name: &str) -> MergedName {
    MergedName { name: name.to_string(), full_name: full_name.to_string() }
}

fn merged_field(name: &str, full_name: &str, ty: &str, collection: bool) -> MergedField {
    MergedField {
        name: merged_name(name, full_name),
        ty: ty.to_string(),
        reference: false,
        collection,
    }
}

fn failure(action: Action) -> Error {
    match action {
        Action::Fail(error) => error,
        other => panic!("no failure: {:?}", other),
    }
}

fn delivered(action: Action) -> Vec<Entity> {
    match action {
        Action::Deliver(entities) => entities,
        other => panic!("nothing delivered: {:?}", other),
    }
}

#[test]
fn request_has_one_module_for_each_entity() {
    let order = Entity::new(
        "Order",
        vec![Field::new("id", "int", false), Field::new("items", "Item", true)],
        DatabaseType::MySQL,
    );
    let item = Entity::new("Item", vec![], DatabaseType::MongoDB);
    let service = Microservice {
        name: "shop".to_string(),
        language: Language::Java,
        ref_entities: vec![order.clone(), order, item],
    };
    let request = BoundedContextRequest::for_service(service, false);
    assert!(!request.use_wu_palmer);
    assert_eq!(request.context.system_name, "shop");
    assert_eq!(request.context.modules.len(), 3);
    let first = &request.context.modules[0];
    assert_eq!(first.name, "Order");
    assert_eq!(first.entities.len(), 1);
    assert_eq!(first.entities[0].entity_name, "Order");
    assert_eq!(first.entities[0].fields.len(), 2);
    assert_eq!(first.entities[0].fields[0].name, "id");
    assert_eq!(first.entities[0].fields[0].ty, "int");
    assert_eq!(first.entities[0].fields[1].name, "items");
    assert_eq!(first.entities[0].fields[1].ty, "Item");
    assert_eq!(request.context.modules[1].name, "Order");
    assert_eq!(request.context.modules[2].name, "Item");
    assert!(request.context.modules[2].entities[0].fields.is_empty());
}

#[test]
fn request_for_gathered_entities() {
    let entities =
        [Entity::new("User", vec![Field::new("name", "String", false)], DatabaseType::MySQL)];
    let request = BoundedContextRequest::for_entities("system", &entities, true);
    assert!(request.use_wu_palmer);
    assert_eq!(request.context.system_name, "system");
    assert_eq!(request.context.modules.len(), 1);
    assert_eq!(request.context.modules[0].entities[0].fields[0].ty, "String");
    let empty = BoundedContextRequest::for_entities("none", &[], false);
    assert!(empty.context.modules.is_empty());
}

#[test]
fn request_parts_convert_one_by_one() {
    let field = BoundedContextField::from(Field::new("id", "int", true));
    assert_eq!((field.name.as_str(), field.ty.as_str()), ("id", "int"));
    let entity = BoundedContextEntity::from(Entity::new(
        "User",
        vec![Field::new("id", "int", true)],
        DatabaseType::MySQL,
    ));
    assert_eq!(entity.entity_name, "User");
    assert_eq!(entity.fields.len(), 1);
    let system = BoundedContextSystem::from(Microservice {
        name: "solo".to_string(),
        language: Language::Go,
        ref_entities: vec![],
    });
    assert_eq!(system.system_name, "solo");
    assert!(system.modules.is_empty());
    let module = BoundedContextModule::new("m".to_string(), vec![entity]);
    assert_eq!(module.name, "m");
    let built = BoundedContextSystem::new("s".to_string(), vec![module]);
    assert_eq!(built.modules[0].entities[0].entity_name, "User");
    let made = BoundedContextEntity::new("E".to_string(), vec![field]);
    assert_eq!(made.fields[0].name, "id");
}

#[test]
fn answer_becomes_entities_by_their_full_names() {
    let system = MergedEntitySystem {
        system_name: "shop".to_string(),
        bounded_context_entities: vec![
            MergedEntity {
                entity_name: merged_name("Customer", "User"),
                fields: vec![
                    merged_field("mail", "email", "String", false),
                    merged_field("orders", "orders", "Order", true),
                ],
            },
            MergedEntity { entity_name: merged_name("Order", "Order"), fields: vec![] },
        ],
    };
    let entities = system.into_entities();
    assert_eq!(
        entities,
        vec![
            Entity::new(
                "User",
                vec![Field::new("email", "String", false), Field::new("orders", "Order", true)],
                DatabaseType::Unknown(String::new()),
            ),
            Entity::new("Order", vec![], DatabaseType::Unknown(String::new())),
        ]
    );
}

#[test]
fn merged_parts_convert_one_by_one() {
    assert_eq!(
        Field::from(merged_field("mail", "email", "String", true)),
        Field::new("email", "String", true)
    );
    let merged = MergedEntity { entity_name: merged_name("Customer", "User"), fields: vec![] };
    assert_eq!(merged.to_entity(), Entity::new("User", vec![], DatabaseType::Unknown(String::new())));
    assert_eq!(
        Entity::from(merged),
        Entity::new("User", vec![], DatabaseType::Unknown(String::new()))
    );
}

#[test]
fn status_of_success_goes_on_to_the_body() {
    assert_eq!((SUCCESS_FIRST, SUCCESS_LAST), (200, 299));
    for code in [200, 201, 204, 250, 299] {
        assert!(matches!(decide(Event::Responded(code)), Action::ReadBody));
    }
    assert!(matches!(decide(Event::BodyRead), Action::Decode));
}

#[test]
fn other_status_fails_the_remote_call() {
    match failure(decide(Event::Responded(404))) {
        Error::RemoteCall(text) => assert_eq!(text, "404 Not Found"),
        other => panic!("wrong error: {:?}", other),
    }
    match failure(decide(Event::Responded(500))) {
        Error::RemoteCall(text) => assert_eq!(text, "500 Internal Server Error"),
        other => panic!("wrong error: {:?}", other),
    }
    match failure(decide(Event::Responded(199))) {
        Error::RemoteCall(text) => assert_eq!(text, "199 <unknown status code>"),
        other => panic!("wrong error: {:?}", other),
    }
    match failure(decide(Event::Responded(300))) {
        Error::RemoteCall(text) => assert_eq!(text, "300 Multiple Choices"),
        other => panic!("wrong error: {:?}", other),
    }
    match failure(decide(Event::Responded(42))) {
        Error::RemoteCall(text) => assert_eq!(text, "invalid status code"),
        other => panic!("wrong error: {:?}", other),
    }
}

#[test]
fn created_answer_is_decoded_and_delivered_in_its_order() {
    assert!(matches!(decide(Event::Responded(201)), Action::ReadBody));
    assert!(matches!(decide(Event::BodyRead), Action::Decode));
    let system = MergedEntitySystem {
        system_name: "shop".to_string(),
        bounded_context_entities: vec![
            MergedEntity { entity_name: merged_name("b", "B"), fields: vec![] },
            MergedEntity { entity_name: merged_name("a", "A"), fields: vec![] },
        ],
    };
    let entities = delivered(decide(Event::Decoded(system)));
    assert_eq!(entities.iter().map(|e| e.name.as_str()).collect::<Vec<_>>(), vec!["B", "A"]);
}

#[test]
fn status_decision_takes_the_text_as_given() {
    assert!(matches!(decide_on_status(200, "whatever".to_string()), Action::ReadBody));
    assert!(matches!(decide_on_status(226, "whatever".to_string()), Action::ReadBody));
    match failure(decide_on_status(503, "busy".to_string())) {
        Error::RemoteCall(text) => assert_eq!(text, "busy"),
        other => panic!("wrong error: {:?}", other),
    }
}

#[test]
fn transport_and_body_failures_fail_the_remote_call() {
    match failure(decide(Event::SendFailed("connection refused".to_string()))) {
        Error::RemoteCall(text) => assert_eq!(text, "connection refused"),
        other => panic!("wrong error: {:?}", other),
    }
    match failure(decide(Event::BodyFailed("payload too large".to_string()))) {
        Error::RemoteCall(text) => assert_eq!(text, "payload too large"),
        other => panic!("wrong error: {:?}", other),
    }
}

#[test]
fn malformed_body_fails_the_deserialization() {
    match failure(decide(Event::DecodeFailed("missing field `systemName`".to_string()))) {
        Error::Deserialize(text) => assert_eq!(text, "missing field `systemName`"),
        other => panic!("wrong error: {:?}", other),
    }
}

#[test]
fn decoded_answer_is_delivered() {
    let system = MergedEntitySystem {
        system_name: "shop".to_string(),
        bounded_context_entities: vec![MergedEntity {
            entity_name: merged_name("Customer", "User"),
            fields: vec![],
        }],
    };
    let entities = delivered(decide(Event::Decoded(system)));
    assert_eq!(entities, vec![Entity::new("User", vec![], DatabaseType::Unknown(String::new()))]);
}

#[test]
fn error_messages() {
    assert_eq!(Error::Ressa("bad".to_string()).to_string(), "ReSSA Error: bad");
    assert_eq!(Error::RemoteCall("404 Not Found".to_string()).to_string(), "Remote Call Error: 404 Not Found");
    assert_eq!(Error::Deserialize("eof".to_string()).to_string(), "Deserialization Error: eof");
    assert_eq!(Error::Conversion.to_string(), "Conversion to Graph Failed");
    assert_eq!(Error::RemoteCall("x".to_string()).clone().to_string(), "Remote Call Error: x");
}

#[test]
fn graph_of_reconciled_entities() {
    let entities = [
        Entity::new(
            "User",
            vec![Field::new("orders", "Order", true)],
            DatabaseType::Unknown(String::new()),
        ),
        Entity::new("Order", vec![], DatabaseType::Unknown(String::new())),
    ];
    let graph = bounded_context_graph(&entities).unwrap();
    assert_eq!(graph.nodes(), entities.to_vec());
    assert_eq!(graph.edge_count(), 1);
}

#[test]
fn answer_without_entities_fails_the_conversion() {
    let answer =
        MergedEntitySystem { system_name: "none".to_string(), bounded_context_entities: vec![] };
    let entities = delivered(decide(Event::Decoded(answer)));
    assert!(entities.is_empty());
    match bounded_context_graph(&entities) {
        Err(Error::Conversion) => {}
        other => panic!("wrong outcome: {:?}", other),
    }
}

#[test]
fn one_full_name_for_two_local_names_gives_one_node() {
    let shape = vec![Field::new("id", "int", false), Field::new("name", "String", false)];
    let user = Entity::new("User", shape.clone(), DatabaseType::MySQL);
    let customer = Entity::new("Customer", shape, DatabaseType::MySQL);
    let gathered = vec![user, customer];
    let request = BoundedContextRequest::for_entities("system", &gathered, true);
    assert!(request.use_wu_palmer);
    assert_eq!(request.context.modules.len(), 2);
    // The service answers with the two collapsed into one.
    let answer = MergedEntitySystem {
        system_name: "system".to_string(),
        bounded_context_entities: vec![MergedEntity {
            entity_name: merged_name("Customer", "User"),
            fields: vec![
                merged_field("id", "id", "int", false),
                merged_field("name", "name", "String", false),
            ],
        }],
    };
    let entities = delivered(decide(Event::Decoded(answer)));
    let graph: EntityGraph = bounded_context_graph(&entities).unwrap();
    assert_eq!(graph.node_count(), 1);
    assert_eq!(graph.node(0).name, "User");
    // Each service sees the reconciled graph with the gathered entities filtered out.
    let expected = "classDiagram\nclass User {\n<<Unknown>>\n+int id\n+String name\n}\n";
    for _service in ["users", "customers"] {
        let mut view = graph.clone();
        view.filter_entities(&gathered);
        assert_eq!(view.node_count(), 1);
        assert_eq!(MermaidString::from(view).as_str(), expected);
    }
}

use prophet::app_data::{communication_graph, gather_entities, AppData, Error};
use prophet::bounded_context::bounded_context_graph;
use prophet::call::{CallRecord, ServiceRecord};
use prophet::model::{DatabaseType, Entity, Field, Language, Microservice};

fn user() -> Entity {
    Entity::new("User", vec![Field::new("id", "int", false)], DatabaseType::MySQL)
}

fn order() -> Entity {
    Entity::new("Order", vec![Field::new("buyer", "User", false)], DatabaseType::MongoDB)
}

fn records() -> Vec<ServiceRecord> {
    vec![
        ServiceRecord {
            service: Microservice {
                name: "users".to_string(),
                language: Language::Java,
                ref_entities: vec![user()],
            },
            calls: vec![],
        },
        ServiceRecord {
            service: Microservice {
                name: "orders".to_string(),
                language: Language::Go,
                ref_entities: vec![order(), user()],
            },
            calls: vec![CallRecord::new("users", "HTTP", Some("GET"))],
        },
    ]
}

#[test]
fn entities_are_gathered_service_by_service() {
    let graph = communication_graph(&records()).unwrap();
    assert_eq!(gather_entities(&graph), vec![user(), order(), user()]);
}

#[test]
fn system_without_services_has_no_communication_graph() {
    match communication_graph(&[]) {
        Err(Error::AppData(text)) => assert_eq!(text, "Could not create microservice graph"),
        other => panic!("wrong outcome: {:?}", other),
    }
}

#[test]
fn communication_graph_reports_a_malformed_call() {
    let bad = [ServiceRecord {
        service: Microservice { name: "a".to_string(), language: Language::Java, ref_entities: vec![] },
        calls: vec![CallRecord::new("a", "HTTP", Some("FETCH"))],
    }];
    match communication_graph(&bad) {
        Err(Error::AppData(text)) => assert_eq!(text, "Could not create microservice graph"),
        other => panic!("wrong outcome: {:?}", other),
    }
}

#[test]
fn analysis_is_put_together() {
    let services = communication_graph(&records()).unwrap();
    let gathered = gather_entities(&services);
    let reconciled = [
        Entity::new("User", vec![Field::new("id", "int", false)], DatabaseType::Unknown(String::new())),
        Entity::new(
            "Order",
            vec![Field::new("buyer", "User", false)],
            DatabaseType::Unknown(String::new()),
        ),
    ];
    let bounded = bounded_context_graph(&reconciled).unwrap();
    let data = AppData::assemble(services, &gathered, bounded);
    assert_eq!(data.name, "system");
    assert_eq!(
        data.communication_diagram.unwrap().as_str(),
        "graph TD\nusers -->|\"HTTP Verb: GET\"| orders\n"
    );
    let entity_diagram = "classDiagram\nclass User {\n<<Unknown>>\n+int id\n}\nclass Order {\n<<Unknown>>\n+User buyer\n}\nOrder \"1\" --> \"1\" User\n";
    assert_eq!(data.entity_diagram.unwrap().as_str(), entity_diagram);
    assert_eq!(data.microservices.len(), 2);
    assert_eq!(data.microservices[0].name, "users");
    assert_eq!(data.microservices[1].name, "orders");
    for service in &data.microservices {
        assert_eq!(service.entity_diagram.as_ref().unwrap().as_str(), entity_diagram);
    }
}

#[test]
fn gathered_entities_are_filtered_out_of_each_service() {
    let services = communication_graph(&records()).unwrap();
    let bounded = bounded_context_graph(&[user(), order()]).unwrap();
    let data = AppData::assemble(services, &[user()], bounded);
    assert_eq!(
        data.entity_diagram.unwrap().as_str(),
        "classDiagram\nclass User {\n<<MySQL>>\n+int id\n}\nclass Order {\n<<MongoDB>>\n+User buyer\n}\nOrder \"1\" --> \"1\" User\n"
    );
    for service in &data.microservices {
        assert_eq!(
            service.entity_diagram.as_ref().unwrap().as_str(),
            "classDiagram\nclass Order {\n<<MongoDB>>\n+User buyer\n}\n"
        );
    }
}

#[test]
fn analysis_where_every_entity_is_filtered_out() {
    let services = communication_graph(&records()).unwrap();
    let bounded = bounded_context_graph(&[user(), order()]).unwrap();
    let data = AppData::assemble(services, &[order(), user()], bounded);
    for service in &data.microservices {
        assert_eq!(service.entity_diagram.as_ref().unwrap().as_str(), "classDiagram\n");
    }
}

#[test]
fn default_analysis_is_empty() {
    let data = AppData::default();
    assert_eq!(data.name, "");
    assert!(data.communication_diagram.is_none());
    assert!(data.entity_diagram.is_none());
    assert!(data.microservices.is_empty());
}

#[test]
fn analysis_error_messages() {
    assert_eq!(Error::CloneRepo("no such remote".to_string()).to_string(), "Could not clone repository: no such remote");
    assert_eq!(Error::Io("denied".to_string()).to_string(), "Encountered an IO error: denied");
    assert_eq!(
        Error::AppData("Could not create entity data".to_string()).to_string(),
        "Could not create an AppData from the provided ReSSA: Could not create entity data"
    );
    let wrapped = Error::from(prophet::bounded_context::Error::Conversion);
    assert!(matches!(wrapped, Error::BoundedContext(prophet::bounded_context::Error::Conversion)));
    assert_eq!(wrapped.to_string(), "Could not create bounded context");
}

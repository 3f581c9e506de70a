use prophet::model::{
    clone_entities, clone_fields, contains_entity, entities_equal, fields_equal, Cardinality,
    DatabaseType, Entity, Field, Language, Microservice,
};

fn user() -> Entity {
    Entity::new(
        "User",
        vec![Field::new("id", "int", false), Field::new("orders", "Order", true)],
        DatabaseType::MySQL,
    )
}

#[test]
fn field_new_keeps_its_parts() {
    let field = Field::new("f1", "EntityTwo", true);
    assert_eq!(field.name, "f1");
    assert_eq!(field.ty, "EntityTwo");
    assert!(field.is_collection);
}

#[test]
fn entity_new_keeps_its_parts() {
    let entity = user();
    assert_eq!(entity.name, "User");
    assert_eq!(entity.fields.len(), 2);
    assert_eq!(entity.fields[1], Field::new("orders", "Order", true));
    assert_eq!(entity.ty, DatabaseType::MySQL);
}

#[test]
fn field_equality_is_by_value() {
    assert!(Field::new("a", "int", false) == Field::new("a", "int", false));
    assert!(Field::new("a", "int", false) != Field::new("b", "int", false));
    assert!(Field::new("a", "int", false) != Field::new("a", "long", false));
    assert!(Field::new("a", "int", false) != Field::new("a", "int", true));
}

#[test]
fn entity_equality_is_by_value() {
    let a = Entity::new("A", vec![Field::new("x", "int", false)], DatabaseType::MySQL);
    let b = Entity::new("A", vec![Field::new("x", "int", false)], DatabaseType::MySQL);
    assert!(a == b);
    let other_field = Entity::new("A", vec![Field::new("x", "int", true)], DatabaseType::MySQL);
    assert!(a != other_field);
    let other_name = Entity::new("B", vec![Field::new("x", "int", false)], DatabaseType::MySQL);
    assert!(a != other_name);
    let other_store = Entity::new("A", vec![Field::new("x", "int", false)], DatabaseType::MongoDB);
    assert!(a != other_store);
    let fewer = Entity::new("A", vec![], DatabaseType::MySQL);
    assert!(a != fewer);
}

#[test]
fn field_order_matters_to_equality() {
    let a = Entity::new(
        "A",
        vec![Field::new("x", "int", false), Field::new("y", "int", false)],
        DatabaseType::MySQL,
    );
    let b = Entity::new(
        "A",
        vec![Field::new("y", "int", false), Field::new("x", "int", false)],
        DatabaseType::MySQL,
    );
    assert!(a != b);
}

#[test]
fn clones_are_equal_to_their_source() {
    let entity = user();
    assert_eq!(entity.clone(), entity);
    assert_eq!(clone_fields(&entity.fields), entity.fields);
    let list = vec![user(), Entity::new("Order", vec![], DatabaseType::MongoDB)];
    assert_eq!(clone_entities(&list), list);
    let service = Microservice {
        name: "shop".to_string(),
        language: Language::Java,
        ref_entities: list,
    };
    assert_eq!(service.clone(), service);
}

#[test]
fn lists_compare_item_by_item() {
    let a = vec![Field::new("x", "int", false)];
    let b = vec![Field::new("x", "int", false)];
    let c = vec![Field::new("x", "int", false), Field::new("y", "int", false)];
    assert!(fields_equal(&a, &b));
    assert!(!fields_equal(&a, &c));
    assert!(fields_equal(&[].to_vec(), &[].to_vec()));
    assert!(entities_equal(&[user()], &[user()]));
    assert!(!entities_equal(&[user()], &[]));
    assert!(!entities_equal(&[user()], &[Entity::new("User", vec![], DatabaseType::MySQL)]));
}

#[test]
fn contains_entity_looks_for_the_whole_value() {
    let list = vec![user(), Entity::new("Order", vec![], DatabaseType::MongoDB)];
    assert!(contains_entity(&list, &user()));
    assert!(!contains_entity(&list, &Entity::new("User", vec![], DatabaseType::MySQL)));
    assert!(!contains_entity(&[], &user()));
}

#[test]
fn microservice_equality_is_by_value() {
    let a = Microservice { name: "a".to_string(), language: Language::Go, ref_entities: vec![user()] };
    let same = Microservice { name: "a".to_string(), language: Language::Go, ref_entities: vec![user()] };
    let other_language =
        Microservice { name: "a".to_string(), language: Language::Python, ref_entities: vec![user()] };
    let other_entities = Microservice { name: "a".to_string(), language: Language::Go, ref_entities: vec![] };
    assert!(a == same);
    assert!(a != other_language);
    assert!(a != other_entities);
}

#[test]
fn database_type_from_tag() {
    assert_eq!(DatabaseType::from("MySQL".to_string()), DatabaseType::MySQL);
    assert_eq!(DatabaseType::from("MongoDB".to_string()), DatabaseType::MongoDB);
    assert_eq!(
        DatabaseType::from("Postgres".to_string()),
        DatabaseType::Unknown("Postgres".to_string())
    );
    assert_eq!(DatabaseType::from("mysql".to_string()), DatabaseType::Unknown("mysql".to_string()));
    assert_eq!(DatabaseType::from(String::new()), DatabaseType::Unknown(String::new()));
}

#[test]
fn database_type_labels() {
    assert_eq!(DatabaseType::MySQL.to_string(), "MySQL");
    assert_eq!(DatabaseType::MongoDB.to_string(), "MongoDB");
    assert_eq!(DatabaseType::Unknown("Postgres".to_string()).to_string(), "Unknown");
}

#[test]
fn database_types_differ_by_tag() {
    assert!(DatabaseType::Unknown("a".to_string()) == DatabaseType::Unknown("a".to_string()));
    assert!(DatabaseType::Unknown("a".to_string()) != DatabaseType::Unknown("b".to_string()));
    assert!(DatabaseType::MySQL != DatabaseType::MongoDB);
    assert!(DatabaseType::MySQL != DatabaseType::Unknown("MySQL".to_string()));
    assert_eq!(DatabaseType::Unknown("a".to_string()).clone(), DatabaseType::Unknown("a".to_string()));
}

#[test]
fn cardinality_tokens() {
    assert_eq!(Cardinality::One.to_string(), "1");
    assert_eq!(Cardinality::Many.to_string(), "*");
}

#[test]
fn entities_can_be_members_of_a_set() {
    let mut set = std::collections::HashSet::new();
    assert!(set.insert(user()));
    assert!(!set.insert(user()));
    assert!(set.insert(Entity::new("User", vec![], DatabaseType::MySQL)));
    assert!(set.contains(&user()));
    assert_eq!(set.len(), 2);
}

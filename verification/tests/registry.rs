use resources::{
    declare_resources, Capability, GreetingResource, Handler, Handlers, Registry, TableExtender,
    Verb,
};

#[test]
fn new_registry_is_empty() {
    let registry = Registry::new();
    assert_eq!(registry.len(), 0);
    assert!(registry.get(0).is_none());
}

#[test]
fn declare_appends_in_order() {
    let mut registry = Registry::new();
    registry.declare("first".to_string(), true, Handlers::new());
    registry.declare(
        "second".to_string(),
        false,
        Handlers::new().with(Verb::Put, Handler::Delegate(Capability::Update)),
    );
    assert_eq!(registry.len(), 2);
    let first = registry.get(0).expect("two resources were declared");
    assert_eq!(first.name(), "first");
    assert!(first.is_public());
    assert_eq!(first.handler(Verb::Put), None);
    let second = registry.get(1).expect("two resources were declared");
    assert_eq!(second.name(), "second");
    assert!(!second.is_public());
    assert_eq!(second.handler(Verb::Put), Some(&Handler::Delegate(Capability::Update)));
    assert!(registry.get(2).is_none());
}

#[test]
fn declaring_a_name_twice_keeps_both() {
    let mut registry = Registry::new();
    registry.declare(
        "counter".to_string(),
        true,
        Handlers::new().with(Verb::Get, Handler::Delegate(Capability::Read)),
    );
    registry.declare("other".to_string(), true, Handlers::new());
    registry.declare("counter".to_string(), false, Handlers::new());
    assert_eq!(registry.len(), 3);
    let first = registry.get(0).expect("three resources were declared");
    let last = registry.get(2).expect("three resources were declared");
    assert_eq!(first.name(), "counter");
    assert_eq!(last.name(), "counter");
    assert!(first.is_public());
    assert_eq!(first.handler(Verb::Get), Some(&Handler::Delegate(Capability::Read)));
    assert!(!last.is_public());
    assert_eq!(last.handler(Verb::Get), None);
    assert_eq!(registry.get(1).expect("three resources were declared").name(), "other");
}

#[test]
fn declaring_the_same_resource_twice_gives_equal_entries() {
    let mut registry = Registry::new();
    registry.declare("greeting".to_string(), true, GreetingResource.handlers());
    registry.declare("greeting".to_string(), true, GreetingResource.handlers());
    assert_eq!(registry.len(), 2);
    assert_eq!(registry.get(0), registry.get(1));
}

#[test]
fn get_past_the_last_is_none() {
    let mut registry = Registry::new();
    registry.declare("only".to_string(), true, Handlers::new());
    assert!(registry.get(0).is_some());
    assert!(registry.get(1).is_none());
    assert!(registry.get(usize::MAX).is_none());
}

#[test]
fn startup_declares_greeting_then_table() {
    let mut registry = Registry::new();
    declare_resources(&mut registry);
    assert_eq!(registry.len(), 2);

    let greeting = registry.get(0).expect("two resources are declared at startup");
    assert_eq!(greeting.name(), GreetingResource.name());
    assert_eq!(greeting.is_public(), GreetingResource.is_public());
    let response = GreetingResource.get().expect("the greeting never fails");
    assert_eq!(greeting.handler(Verb::Get), Some(&Handler::Respond(response)));
    assert_eq!(greeting.handler(Verb::Put), None);
    assert_eq!(greeting.handler(Verb::Post), None);
    assert_eq!(greeting.handler(Verb::Delete), None);

    let table = registry.get(1).expect("two resources are declared at startup");
    assert_eq!(table.name(), TableExtender.name());
    assert_eq!(table.is_public(), TableExtender.is_public());
    assert_eq!(table.handler(Verb::Get), Some(&Handler::Delegate(Capability::Read)));
    assert_eq!(table.handler(Verb::Put), Some(&Handler::Delegate(Capability::Update)));
    assert_eq!(table.handler(Verb::Post), None);
    assert_eq!(table.handler(Verb::Delete), None);
}

#[test]
fn startup_keeps_earlier_declarations() {
    let mut registry = Registry::new();
    registry.declare("earlier".to_string(), false, Handlers::new());
    declare_resources(&mut registry);
    assert_eq!(registry.len(), 3);
    assert_eq!(registry.get(0).expect("three resources are declared").name(), "earlier");
    assert_eq!(registry.get(1).expect("three resources are declared").name(), "greeting");
    assert_eq!(registry.get(2).expect("three resources are declared").name(), "TableName");
}

#[test]
fn startup_twice_declares_every_name_twice() {
    let mut registry = Registry::new();
    declare_resources(&mut registry);
    declare_resources(&mut registry);
    assert_eq!(registry.len(), 4);
    assert_eq!(registry.get(0), registry.get(2));
    assert_eq!(registry.get(1), registry.get(3));
}

#[test]
fn startup_names_are_distinct() {
    let mut registry = Registry::new();
    declare_resources(&mut registry);
    let greeting = registry.get(0).expect("two resources are declared at startup");
    let table = registry.get(1).expect("two resources are declared at startup");
    assert_ne!(greeting.name(), table.name());
}

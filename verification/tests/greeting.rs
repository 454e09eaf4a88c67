use resources::{
    Greeting, GreetingResource, Handler, LogEvent, LogLevel, Reply, Response, Verb,
};

fn hello_world() -> Response {
    Response {
        events: vec![LogEvent { level: LogLevel::Info, message: "Greeting requested".to_string() }],
        reply: Reply { members: vec![("greeting".to_string(), "Hello, World!".to_string())] },
    }
}

#[test]
fn greeting_is_called_greeting() {
    assert_eq!(GreetingResource.name(), "greeting");
}

#[test]
fn greeting_is_public() {
    assert!(GreetingResource.is_public());
}

#[test]
fn greeting_get_replies_hello_world() {
    let response = GreetingResource.get().expect("the greeting never fails");
    assert_eq!(
        response.reply.members,
        vec![("greeting".to_string(), "Hello, World!".to_string())]
    );
}

#[test]
fn greeting_get_emits_one_info_event() {
    let response = GreetingResource.get().expect("the greeting never fails");
    assert_eq!(response.events.len(), 1);
    assert_eq!(response.events[0].level, LogLevel::Info);
    assert_eq!(response.events[0].message, "Greeting requested");
}

#[test]
fn greeting_get_is_repeatable() {
    let resource = GreetingResource;
    let first = resource.get();
    let second = resource.get();
    let third = GreetingResource.get();
    assert_eq!(first, second);
    assert_eq!(second, third);
    assert_eq!(first, Ok(hello_world()));
}

#[test]
fn greeting_declares_get_alone() {
    let handlers = GreetingResource.handlers();
    assert_eq!(handlers.get(Verb::Get), Some(&Handler::Respond(hello_world())));
    assert_eq!(handlers.get(Verb::Put), None);
    assert_eq!(handlers.get(Verb::Post), None);
    assert_eq!(handlers.get(Verb::Delete), None);
}

#[test]
fn greeting_handler_answers_as_get_does() {
    let handlers = GreetingResource.handlers();
    let response = GreetingResource.get().expect("the greeting never fails");
    assert_eq!(handlers.get(Verb::Get), Some(&Handler::Respond(response)));
}

#[test]
fn greeting_alias_names_the_same_resource() {
    let resource: Greeting = Greeting::default();
    assert_eq!(resource, GreetingResource);
    assert_eq!(resource.name(), "greeting");
    assert_eq!(resource.get(), Ok(hello_world()));
}

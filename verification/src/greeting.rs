use crate::handler::{Handler, HandlerView, Handlers, Response, ResponseView};
use crate::reply::{HandlerError, Reply};
use crate::resource::ResourceView;
use crate::telemetry::{LogEvent, LogEventView, LogLevel};
use crate::verb::Verb;
use vstd::prelude::*;

verus! {

/// The greeting resource: a public endpoint that answers GET with a fixed
/// greeting.
#[derive(Clone, Copy, Debug, Default, PartialEq, Eq)]
pub struct GreetingResource;

pub type Greeting = GreetingResource;

/// What every GET on the greeting resource produces: one `Info` event and the
/// document `{"greeting": "Hello, World!"}`.
pub open spec fn greeting_response() -> ResponseView {
    ResponseView {
        events: seq![LogEventView { level: LogLevel::Info, message: "Greeting requested"@ }],
        reply: seq![("greeting"@, "Hello, World!"@)],
    }
}

/// The greeting resource as it stands in a registry: public, called
/// `greeting`, with a handler for GET alone.
pub open spec fn greeting_declaration() -> ResourceView {
    ResourceView {
        name: "greeting"@,
        is_public: true,
        handlers: Map::<Verb, HandlerView>::empty().insert(
            Verb::Get,
            HandlerView::Respond(greeting_response()),
        ),
    }
}

fn greet() -> (response: Response)
    ensures
        response@ == greeting_response(),
{
    let mut events: Vec<LogEvent> = Vec::new();
    events.push(LogEvent { level: LogLevel::Info, message: "Greeting requested".to_owned() });
    let mut members: Vec<(String, String)> = Vec::new();
    members.push(("greeting".to_owned(), "Hello, World!".to_owned()));
    let response = Response { events, reply: Reply { members } };
    assert(response@.events =~= greeting_response().events);
    assert(response@.reply =~= greeting_response().reply);
    response
}

impl GreetingResource {
    /// The name of the resource, `greeting`.
    pub fn name(&self) -> (name: &'static str)
        ensures
            name@ == "greeting"@,
            name@.len() > 0,
    {
        proof {
            reveal_strlit("greeting");
        }
        "greeting"
    }

    /// The resource is public: it can be reached without authentication.
    pub fn is_public(&self) -> (is_public: bool)
        ensures
            is_public,
    {
        true
    }

    /// Handles a GET. The call reads nothing from the request and never
    /// fails.
    pub fn get(&self) -> (result: Result<Response, HandlerError>)
        ensures
            result matches Ok(response) && response@ == greeting_response(),
    {
        Ok(greet())
    }

    /// The verbs of the resource: GET, answered as `get` answers it, and no
    /// other.
    pub fn handlers(&self) -> (handlers: Handlers)
        ensures
            handlers@ == greeting_declaration().handlers,
    {
        Handlers::new().with(Verb::Get, Handler::Respond(greet()))
    }
}

/// Repeated GETs agree: whatever two calls of `get` return, both are `Ok` and
/// hold the same events and the same reply.
pub proof fn lemma_get_is_repeatable(
    resource: GreetingResource,
    first: Result<Response, HandlerError>,
    second: Result<Response, HandlerError>,
)
    requires
        call_ensures(GreetingResource::get, (&resource,), first),
        call_ensures(GreetingResource::get, (&resource,), second),
    ensures
        first is Ok,
        second is Ok,
        first->Ok_0@ == second->Ok_0@,
{
}

} // verus!

use crate::reply::Reply;
use crate::telemetry::{events_view, LogEvent, LogEventView};
use crate::verb::Verb;
use vstd::prelude::*;

verus! {

/// A generic operation on the records of a table, supplied by the host for each
/// entity type.
#[derive(Clone, Copy, Debug, PartialEq, Eq, Hash, Structural)]
pub enum Capability {
    Create,
    Read,
    Update,
    Delete,
}

/// What one invocation of a handler produces: the log events to emit, in
/// order, and the reply for the caller.
#[derive(Debug, PartialEq, Eq)]
pub struct Response {
    pub events: Vec<LogEvent>,
    pub reply: Reply,
}

/// A response with its events and its reply as sequences.
pub struct ResponseView {
    pub events: Seq<LogEventView>,
    pub reply: Seq<(Seq<char>, Seq<char>)>,
}

impl View for Response {
    type V = ResponseView;

    open spec fn view(&self) -> ResponseView {
        ResponseView { events: events_view(self.events@), reply: self.reply@ }
    }
}

/// What a resource does for one verb.
///
/// A handler is a value, not a closure: it holds no state, so that invoking it
/// twice gives the same response.
#[derive(Debug, PartialEq, Eq)]
pub enum Handler {
    /// Emit the events and answer with the reply.
    Respond(Response),
    /// Hand the call to a capability of the host.
    Delegate(Capability),
}

/// A handler with its response by its view.
pub enum HandlerView {
    Respond(ResponseView),
    Delegate(Capability),
}

impl View for Handler {
    type V = HandlerView;

    open spec fn view(&self) -> HandlerView {
        match self {
            Handler::Respond(response) => HandlerView::Respond(response@),
            Handler::Delegate(capability) => HandlerView::Delegate(*capability),
        }
    }
}

/// The handlers of a resource, one for each verb that it declares.
///
/// A verb without a handler is undeclared: the dispatcher answers it, and
/// nothing in this library does.
#[derive(Debug, PartialEq, Eq)]
pub struct Handlers {
    get: Option<Handler>,
    put: Option<Handler>,
    post: Option<Handler>,
    delete: Option<Handler>,
}

impl Handlers {
    spec fn slot(&self, verb: Verb) -> Option<Handler> {
        match verb {
            Verb::Get => self.get,
            Verb::Put => self.put,
            Verb::Post => self.post,
            Verb::Delete => self.delete,
        }
    }

    /// No verb is declared.
    pub fn new() -> (handlers: Handlers)
        ensures
            handlers@ == Map::<Verb, HandlerView>::empty(),
    {
        let handlers = Handlers { get: None, put: None, post: None, delete: None };
        assert(handlers@ =~= Map::<Verb, HandlerView>::empty());
        handlers
    }

    /// Declares `verb` with `handler`. A handler that the verb had before is
    /// replaced; the other verbs keep theirs.
    pub fn with(self, verb: Verb, handler: Handler) -> (handlers: Handlers)
        ensures
            handlers@ == self@.insert(verb, handler@),
    {
        let ghost declared = handler@;
        let mut handlers = self;
        match verb {
            Verb::Get => {
                handlers.get = Some(handler);
            },
            Verb::Put => {
                handlers.put = Some(handler);
            },
            Verb::Post => {
                handlers.post = Some(handler);
            },
            Verb::Delete => {
                handlers.delete = Some(handler);
            },
        }
        assert(handlers@ =~= self@.insert(verb, declared));
        handlers
    }

    /// The handler that `verb` was declared with, or `None` for an undeclared
    /// verb.
    pub fn get(&self, verb: Verb) -> (handler: Option<&Handler>)
        ensures
            handler is Some <==> self@.contains_key(verb),
            handler matches Some(found) ==> found@ == self@[verb],
    {
        match verb {
            Verb::Get => self.get.as_ref(),
            Verb::Put => self.put.as_ref(),
            Verb::Post => self.post.as_ref(),
            Verb::Delete => self.delete.as_ref(),
        }
    }
}

impl View for Handlers {
    type V = Map<Verb, HandlerView>;

    closed spec fn view(&self) -> Map<Verb, HandlerView> {
        Map::new(|verb: Verb| self.slot(verb) is Some, |verb: Verb| self.slot(verb)->0@)
    }
}

} // verus!

use crate::handler::{Handler, HandlerView, Handlers};
use crate::verb::Verb;
use vstd::prelude::*;

verus! {

/// A declared resource: a named endpoint with a visibility flag and a fixed
/// set of verbs. It is built once and never changed afterwards.
#[derive(Debug, PartialEq, Eq)]
pub struct Resource {
    name: String,
    is_public: bool,
    handlers: Handlers,
}

/// A resource as the contracts speak of it.
pub struct ResourceView {
    pub name: Seq<char>,
    pub is_public: bool,
    pub handlers: Map<Verb, HandlerView>,
}

impl View for Resource {
    type V = ResourceView;

    closed spec fn view(&self) -> ResourceView {
        ResourceView { name: self.name@, is_public: self.is_public, handlers: self.handlers@ }
    }
}

impl Resource {
    #[verifier::type_invariant]
    spec fn has_name(&self) -> bool {
        self.name@.len() > 0
    }

    /// The resource called `name`, public or not, that answers the verbs of
    /// `handlers` and no others.
    pub fn new(name: String, is_public: bool, handlers: Handlers) -> (resource: Resource)
        requires
            name@.len() > 0,
        ensures
            resource@ == (ResourceView { name: name@, is_public, handlers: handlers@ }),
    {
        Resource { name, is_public, handlers }
    }

    /// The name that the dispatcher addresses the resource by. It is never
    /// empty.
    pub fn name(&self) -> (name: &str)
        ensures
            name@ == self@.name,
            name@.len() > 0,
    {
        proof {
            use_type_invariant(self);
        }
        self.name.as_str()
    }

    /// Whether the resource can be reached without authentication.
    pub fn is_public(&self) -> (is_public: bool)
        ensures
            is_public == self@.is_public,
    {
        self.is_public
    }

    /// The handler that the resource declares for `verb`, or `None` where it
    /// declares none.
    pub fn handler(&self, verb: Verb) -> (handler: Option<&Handler>)
        ensures
            handler is Some <==> self@.handlers.contains_key(verb),
            handler matches Some(found) ==> found@ == self@.handlers[verb],
    {
        self.handlers.get(verb)
    }
}

/// Looking a verb up is repeatable: on resources that the contracts cannot
/// tell apart, whatever two calls of `handler` return for the same verb, both
/// find a handler or neither does, and a handler found is the same.
pub proof fn lemma_handler_is_repeatable(
    resource: Resource,
    same: Resource,
    verb: Verb,
    first: Option<&Handler>,
    second: Option<&Handler>,
)
    requires
        resource@ == same@,
        call_ensures(Resource::handler, (&resource, verb), first),
        call_ensures(Resource::handler, (&same, verb), second),
    ensures
        first is Some <==> second is Some,
        first matches Some(found) ==> found@ == second->0@,
{
}

} // verus!

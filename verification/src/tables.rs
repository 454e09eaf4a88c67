use crate::handler::{Capability, Handler, HandlerView, Handlers};
use crate::resource::ResourceView;
use crate::verb::Verb;
use vstd::prelude::*;

verus! {

/// The resource that opens the table `TableName` to its callers: they may read
/// its records and update them.
///
/// Creating and deleting records is left undeclared on purpose, so that no
/// caller can flood the table with records or wipe it.
#[derive(Clone, Copy, Debug, Default, PartialEq, Eq)]
pub struct TableExtender;

/// The table resource as it stands in a registry: public, called after its
/// table, with GET handed to the host's read capability and PUT to its update
/// capability.
pub open spec fn table_declaration() -> ResourceView {
    ResourceView {
        name: "TableName"@,
        is_public: true,
        handlers: Map::<Verb, HandlerView>::empty().insert(
            Verb::Get,
            HandlerView::Delegate(Capability::Read),
        ).insert(Verb::Put, HandlerView::Delegate(Capability::Update)),
    }
}

impl TableExtender {
    /// The name of the resource, which is the name of its table.
    pub fn name(&self) -> (name: &'static str)
        ensures
            name@ == "TableName"@,
            name@.len() > 0,
    {
        proof {
            reveal_strlit("TableName");
        }
        "TableName"
    }

    /// The resource is public: it can be reached without authentication.
    pub fn is_public(&self) -> (is_public: bool)
        ensures
            is_public,
    {
        true
    }

    /// The verbs of the resource: GET reads and PUT updates. POST and DELETE
    /// are undeclared.
    pub fn handlers(&self) -> (handlers: Handlers)
        ensures
            handlers@ == table_declaration().handlers,
    {
        Handlers::new().with(Verb::Get, Handler::Delegate(Capability::Read)).with(
            Verb::Put,
            Handler::Delegate(Capability::Update),
        )
    }
}

/// The verb allow-list of the table resource: GET reads, PUT updates, POST and
/// DELETE are undeclared, and so is every verb but GET and PUT. No handler
/// creates or deletes a record.
pub proof fn lemma_table_verbs()
    ensures
        table_declaration().handlers.dom() == set![Verb::Get, Verb::Put],
        table_declaration().handlers[Verb::Get] == HandlerView::Delegate(Capability::Read),
        table_declaration().handlers[Verb::Put] == HandlerView::Delegate(Capability::Update),
        !table_declaration().handlers.contains_key(Verb::Post),
        !table_declaration().handlers.contains_key(Verb::Delete),
        forall|verb: Verb| #[trigger]
            table_declaration().handlers.contains_key(verb) ==> {
                &&& table_declaration().handlers[verb] != HandlerView::Delegate(Capability::Create)
                &&& table_declaration().handlers[verb] != HandlerView::Delegate(Capability::Delete)
            },
{
    assert(table_declaration().handlers.dom() =~= set![Verb::Get, Verb::Put]);
}

} // verus!

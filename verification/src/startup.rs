use crate::greeting::{greeting_declaration, GreetingResource};
use crate::registry::{names_distinct, Registry};
use crate::resource::ResourceView;
use crate::tables::{table_declaration, TableExtender};
use vstd::prelude::*;

verus! {

/// Declares the resources of this library in `registry`: the greeting
/// resource, then the table resource.
pub fn declare_resources(registry: &mut Registry)
    ensures
        final(registry)@ == old(registry)@.push(greeting_declaration()).push(table_declaration()),
{
    let greeting = GreetingResource;
    registry.declare(greeting.name().to_owned(), greeting.is_public(), greeting.handlers());
    let table = TableExtender;
    registry.declare(table.name().to_owned(), table.is_public(), table.handlers());
}

/// The resources of this library do not share a name: declared in an empty
/// registry, they give the dispatcher no name twice.
pub proof fn lemma_startup_names_distinct()
    ensures
        names_distinct(
            Seq::<ResourceView>::empty().push(greeting_declaration()).push(table_declaration()),
        ),
{
    reveal_strlit("greeting");
    reveal_strlit("TableName");
    assert(greeting_declaration().name.len() != table_declaration().name.len());
}

} // verus!

use crate::handler::Handlers;
use crate::resource::{Resource, ResourceView};
use vstd::prelude::*;

verus! {

/// The resources declared at startup, in the order of their declaration.
///
/// The registry is built once and then handed to the dispatcher by reference.
/// It keeps every declaration as it was made. Whether two of them share a name
/// is for the dispatcher to find and report: `declare` does not look.
#[derive(Debug, PartialEq, Eq)]
pub struct Registry {
    resources: Vec<Resource>,
}

impl View for Registry {
    type V = Seq<ResourceView>;

    closed spec fn view(&self) -> Seq<ResourceView> {
        Seq::new(self.resources@.len(), |i: int| self.resources@[i]@)
    }
}

/// No two resources of the list have the same name.
pub open spec fn names_distinct(resources: Seq<ResourceView>) -> bool {
    forall|i: int, j: int|
        0 <= i < j < resources.len() ==> (#[trigger] resources[i]).name != (
        #[trigger] resources[j]).name
}

impl Registry {
    /// A registry without resources.
    pub fn new() -> (registry: Registry)
        ensures
            registry@ == Seq::<ResourceView>::empty(),
    {
        let registry = Registry { resources: Vec::new() };
        assert(registry@ =~= Seq::<ResourceView>::empty());
        registry
    }

    /// Declares the resource called `name` after those that the registry
    /// holds. Nothing else changes, and no name is refused for being there
    /// already.
    pub fn declare(&mut self, name: String, is_public: bool, handlers: Handlers)
        requires
            name@.len() > 0,
        ensures
            final(self)@ == old(self)@.push(
                ResourceView { name: name@, is_public, handlers: handlers@ },
            ),
    {
        let resource = Resource::new(name, is_public, handlers);
        self.resources.push(resource);
        assert(self@ =~= old(self)@.push(resource@));
    }

    /// The number of declarations.
    pub fn len(&self) -> (len: usize)
        ensures
            len == self@.len(),
    {
        self.resources.len()
    }

    /// The declaration at `index`, counted from the first, or `None` past the
    /// last.
    pub fn get(&self, index: usize) -> (resource: Option<&Resource>)
        ensures
            resource is Some <==> index < self@.len(),
            resource matches Some(found) ==> found@ == self@[index as int],
    {
        if index < self.resources.len() {
            Some(&self.resources[index])
        } else {
            None
        }
    }
}

/// Declaring a name that the registry already holds is kept like any other
/// declaration: the earlier entries stay as they were, the new one stands
/// last, and the name is then there twice for the dispatcher to report.
pub proof fn lemma_redeclared_name_is_kept(before: Seq<ResourceView>, again: ResourceView)
    requires
        exists|i: int| 0 <= i < before.len() && (#[trigger] before[i]).name == again.name,
    ensures
        before.push(again).len() == before.len() + 1,
        forall|i: int| 0 <= i < before.len() ==> before.push(again)[i] == before[i],
        before.push(again)[before.len() as int] == again,
        !names_distinct(before.push(again)),
{
    let first = choose|i: int| 0 <= i < before.len() && (#[trigger] before[i]).name == again.name;
    let after = before.push(again);
    assert(after[first].name == after[before.len() as int].name);
}

} // verus!

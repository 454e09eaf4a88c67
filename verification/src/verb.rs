use vstd::prelude::*;

verus! {

/// An HTTP verb that a resource can declare a handler for.
#[derive(Clone, Copy, Debug, PartialEq, Eq, Hash, Structural)]
pub enum Verb {
    Get,
    Put,
    Post,
    Delete,
}

} // verus!

use vstd::prelude::*;

verus! {

/// A reply document: a JSON object whose members are strings, in the order in
/// which they were written.
#[derive(Debug, PartialEq, Eq)]
pub struct Reply {
    pub members: Vec<(String, String)>,
}

/// The members of a list as pairs of character sequences.
pub open spec fn members_view(members: Seq<(String, String)>) -> Seq<(Seq<char>, Seq<char>)> {
    Seq::new(members.len(), |i: int| (members[i].0@, members[i].1@))
}

impl View for Reply {
    type V = Seq<(Seq<char>, Seq<char>)>;

    open spec fn view(&self) -> Seq<(Seq<char>, Seq<char>)> {
        members_view(self.members@)
    }
}

/// The failure of a handler that could not produce a reply. The dispatcher
/// turns it into a status for the client; what `kind` holds is up to the
/// application.
#[derive(Debug, PartialEq, Eq)]
pub struct HandlerError {
    pub kind: String,
}

} // verus!

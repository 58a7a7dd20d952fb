//! The verb under which entity handlers are keyed.

use vstd::prelude::*;

verus! {

/// What happened to a batch of entities: it was written, or it was removed.
#[derive(Clone, Copy, Debug, PartialEq, Eq, Structural)]
pub enum EntityAction {
    Update,
    Delete,
}

impl EntityAction {
    /// The text of an action as it appears in a dispatch key.
    pub open spec fn text(self) -> Seq<char> {
        match self {
            EntityAction::Update => "update"@,
            EntityAction::Delete => "delete"@,
        }
    }

    /// Returns `"update"` or `"delete"`.
    pub fn get_text(&self) -> (text: &'static str)
        ensures
            text@ == self.text(),
    {
        match self {
            EntityAction::Update => "update",
            EntityAction::Delete => "delete",
        }
    }
}

} // verus!

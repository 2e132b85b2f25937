//! Workspaces of the window-manager session.

use vstd::prelude::*;

verus! {

/// One workspace: its session-unique id and its name, which also
/// addresses the workspace in commands and must be unique among the
/// current workspaces.
#[derive(Debug)]
pub struct Workspace {
    /// The session-unique workspace id.
    pub id: u64,
    /// The display name, also the addressing key.
    pub name: String,
}

impl Clone for Workspace {
    /// A copy equal to the original.
    fn clone(&self) -> (res: Self)
        ensures
            res == *self,
    {
        Workspace { id: self.id, name: self.name.clone() }
    }
}

} // verus!

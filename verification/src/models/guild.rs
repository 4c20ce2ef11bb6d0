//! Servers.

use vstd::prelude::*;

verus! {

/// A server, as it stands in the sidebar.
#[derive(Debug, Clone)]
pub struct Guild {
    pub id: String,
    pub name: String,
    pub expanded: bool,
}

impl Guild {
    /// A server, collapsed.
    pub fn new(id: &str, name: &str) -> (guild: Guild)
        ensures
            guild.id@ == id@,
            guild.name@ == name@,
            !guild.expanded,
    {
        Guild { id: id.to_owned(), name: name.to_owned(), expanded: false }
    }

    /// A copy of the server.
    pub fn duplicate(&self) -> (copy: Guild)
        ensures
            copy == *self,
    {
        Guild { id: self.id.clone(), name: self.name.clone(), expanded: self.expanded }
    }

    /// Expands a collapsed server and collapses an expanded one.
    pub fn toggle_expanded(&mut self)
        ensures
            final(self).expanded == !old(self).expanded,
            final(self).id == old(self).id,
            final(self).name == old(self).name,
    {
        self.expanded = !self.expanded;
    }
}

} // verus!

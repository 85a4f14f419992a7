use vstd::prelude::*;

verus! {

/// The id and handle of an abstract grid: the group that owns it and its
/// local id within that group.
#[derive(Debug, Clone, Copy, PartialEq, Eq, Structural, Hash)]
pub struct AbstractGridID {
    group_id: u32,
    local_id: u16,
}

impl AbstractGridID {
    pub closed spec fn spec_group_id(self) -> u32 {
        self.group_id
    }

    pub closed spec fn spec_local_id(self) -> u16 {
        self.local_id
    }

    /// Two grid ids are equal exactly when their groups and their local ids
    /// are.
    pub proof fn lemma_eq(a: Self, b: Self)
        ensures
            a == b <==> (a.spec_group_id() == b.spec_group_id() && a.spec_local_id()
                == b.spec_local_id()),
    {
    }

    /// Creates a new grid id.
    pub fn new(group_id: u32, local_id: u16) -> (r: Self)
        ensures
            r.spec_group_id() == group_id,
            r.spec_local_id() == local_id,
    {
        Self { group_id, local_id }
    }

    /// Gets the id of the group that owns this grid.
    pub fn get_group_id(&self) -> (r: u32)
        ensures
            r == self.spec_group_id(),
    {
        self.group_id
    }

    /// Gets the id of this grid within its group.
    pub fn get_local_id(&self) -> (r: u16)
        ensures
            r == self.spec_local_id(),
    {
        self.local_id
    }
}

} // verus!

//! The data store as the engine sees it: what kind of collection a key
//! holds, and how a member is removed from each kind.

use vstd::prelude::*;

verus! {

/// What the data store holds under a collection key.
#[derive(Clone, Copy, Debug, PartialEq, Eq, Structural)]
pub enum CollectionKind {
    /// Nothing: the key does not exist.
    Absent,
    /// A hash; its members are fields.
    Hash,
    /// A set.
    PlainSet,
    /// A sorted set; its members carry a score.
    SortedSet,
    /// A value that has no members to expire.
    Unsupported,
}

/// The store operation that removes one member from its collection. Each is
/// a no-op on a member that is not there.
#[derive(Clone, Copy, Debug, PartialEq, Eq, Structural)]
pub enum Removal {
    /// Delete a field of a hash.
    HashField,
    /// Remove a member of a set.
    SetMember,
    /// Remove a member of a sorted set.
    SortedSetMember,
}

/// The removal that fits a kind of collection, if members can be removed
/// from it.
pub open spec fn removal_of(kind: CollectionKind) -> Option<Removal> {
    match kind {
        CollectionKind::Hash => Some(Removal::HashField),
        CollectionKind::PlainSet => Some(Removal::SetMember),
        CollectionKind::SortedSet => Some(Removal::SortedSetMember),
        CollectionKind::Absent => None,
        CollectionKind::Unsupported => None,
    }
}

impl CollectionKind {
    /// Members of this kind of collection can be given a time-to-live.
    pub open spec fn supported(self) -> bool {
        self != CollectionKind::Unsupported
    }

    /// Picks the removal for a collection of this kind. `None` means that
    /// there is nothing to remove from: the reaper skips such a collection.
    pub fn removal(self) -> (op: Option<Removal>)
        ensures
            op == removal_of(self),
    {
        match self {
            CollectionKind::Hash => Some(Removal::HashField),
            CollectionKind::PlainSet => Some(Removal::SetMember),
            CollectionKind::SortedSet => Some(Removal::SortedSetMember),
            CollectionKind::Absent => None,
            CollectionKind::Unsupported => None,
        }
    }
}

} // verus!

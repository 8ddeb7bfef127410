//! The member that expires, and the order in which members come due.

use std::cmp::Ordering;
use vstd::prelude::*;

verus! {

/// Composite identity of one expirable member: the collection's key and the
/// member inside it. Two identities are equal only if both parts are equal, so
/// `("ab", "c")` and `("a", "bc")` never meet.
pub struct MemberId {
    pub key: Seq<char>,
    pub member: Seq<char>,
}

/// What a scheduled member stands for in contracts: its identity and the
/// instant, in milliseconds, at or after which it is to be removed.
pub struct Pending {
    pub id: MemberId,
    pub due: u128,
}

/// A snapshot taken when a member is scheduled: a hint for the reaper, valid
/// only while the due-time index still holds the same due-time.
#[derive(Debug, PartialEq, Eq)]
pub struct ExpiringMember {
    pub expire_at: u128,
    pub key: String,
    pub member: String,
}

impl View for ExpiringMember {
    type V = Pending;

    open spec fn view(&self) -> Pending {
        Pending { id: MemberId { key: self.key@, member: self.member@ }, due: self.expire_at }
    }
}

impl Clone for ExpiringMember {
    fn clone(&self) -> (copy: Self)
        ensures
            copy == *self,
    {
        ExpiringMember {
            expire_at: self.expire_at,
            key: self.key.clone(),
            member: self.member.clone(),
        }
    }
}

impl ExpiringMember {
    /// Orders two members by due-time alone; members due at the same instant
    /// compare as equal whatever they name.
    pub fn cmp(&self, other: &Self) -> (order: Ordering)
        ensures
            order == Ordering::Less <==> self.expire_at < other.expire_at,
            order == Ordering::Equal <==> self.expire_at == other.expire_at,
            order == Ordering::Greater <==> self.expire_at > other.expire_at,
    {
        if self.expire_at < other.expire_at {
            Ordering::Less
        } else if self.expire_at == other.expire_at {
            Ordering::Equal
        } else {
            Ordering::Greater
        }
    }

    /// The same order as [`ExpiringMember::cmp`]; it is total, so the result
    /// is never `None`.
    pub fn partial_cmp(&self, other: &Self) -> (order: Option<Ordering>)
        ensures
            order == Some(Ordering::Less) <==> self.expire_at < other.expire_at,
            order == Some(Ordering::Equal) <==> self.expire_at == other.expire_at,
            order == Some(Ordering::Greater) <==> self.expire_at > other.expire_at,
            order is Some,
    {
        Some(self.cmp(other))
    }
}

} // verus!

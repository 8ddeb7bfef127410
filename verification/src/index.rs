//! The due-time index: the one authority on which members expire, and when.

use crate::member::MemberId;
use vstd::hash_map::StringHashMap;
use vstd::prelude::*;

verus! {

/// Maps each member with an active expiration to its due-time.
///
/// Members are kept per collection: `slots` gives each collection that has a
/// scheduled member the place of its table in `tables`, and a table maps the
/// members of that collection to their due-times. The table of a collection
/// whose last member left is listed in `spare` and handed to the next
/// collection that needs one.
pub struct DueTimeIndex {
    slots: StringHashMap<usize>,
    tables: Vec<StringHashMap<u128>>,
    spare: Vec<usize>,
}

impl View for DueTimeIndex {
    type V = Map<MemberId, u128>;

    closed spec fn view(&self) -> Map<MemberId, u128> {
        Map::new(
            |id: MemberId|
                self.slots@.contains_key(id.key) && self.table_of(id.key).contains_key(id.member),
            |id: MemberId| self.table_of(id.key)[id.member],
        )
    }
}

impl DueTimeIndex {
    /// The table that the collection `key` has been given.
    closed spec fn table_of(&self, key: Seq<char>) -> Map<Seq<char>, u128> {
        self.tables@[self.slots@[key] as int]@
    }

    /// Every collection with a slot has a table of its own that holds at
    /// least one member; every spare table is empty, listed once, and given
    /// to no collection.
    pub closed spec fn wf(&self) -> bool {
        &&& forall|k: Seq<char>| #[trigger]
            self.slots@.contains_key(k) ==> self.slots@[k] < self.tables@.len()
        &&& forall|k1: Seq<char>, k2: Seq<char>|
            #![trigger self.slots@[k1], self.slots@[k2]]
            self.slots@.contains_key(k1) && self.slots@.contains_key(k2) && self.slots@[k1]
                == self.slots@[k2] ==> k1 == k2
        &&& forall|k: Seq<char>| #[trigger]
            self.slots@.contains_key(k) ==> exists|m: Seq<char>| self.table_of(k).contains_key(m)
        &&& forall|j: int|
            0 <= j < self.spare@.len() ==> (#[trigger] self.spare@[j]) < self.tables@.len()
        &&& forall|j: int|
            0 <= j < self.spare@.len() ==> self.tables@[(#[trigger] self.spare@[j]) as int]@
                =~= Map::<Seq<char>, u128>::empty()
        &&& forall|j: int, k: Seq<char>|
            0 <= j < self.spare@.len() && self.slots@.contains_key(k) ==> (#[trigger] self.spare@[j])
                != #[trigger] self.slots@[k]
        &&& forall|i: int, j: int|
            0 <= i < j < self.spare@.len() ==> (#[trigger] self.spare@[i])
                != #[trigger] self.spare@[j]
    }

    /// An index in which no member has an expiration.
    pub fn new() -> (index: Self)
        ensures
            index.wf(),
            index@ == Map::<MemberId, u128>::empty(),
    {
        let index = DueTimeIndex {
            slots: StringHashMap::new(),
            tables: Vec::new(),
            spare: Vec::new(),
        };
        assert(index@ =~= Map::<MemberId, u128>::empty());
        index
    }

    /// The due-time of a member, if it has an active expiration.
    pub fn get(&self, key: &str, member: &str) -> (due: Option<u128>)
        requires
            self.wf(),
        ensures
            due == self@.get(MemberId { key: key@, member: member@ }),
    {
        let ghost id = MemberId { key: key@, member: member@ };
        match self.slots.get(key) {
            Some(slot) => {
                let slot: usize = *slot;
                match self.tables[slot].get(member) {
                    Some(at) => {
                        assert(self@.contains_key(id));
                        Some(*at)
                    },
                    None => {
                        assert(!self@.contains_key(id));
                        None
                    },
                }
            },
            None => {
                assert(!self@.contains_key(id));
                None
            },
        }
    }

    /// Gives the member the due-time `due_at`, whatever it had before.
    pub fn set(&mut self, key: String, member: String, due_at: u128)
        requires
            old(self).wf(),
        ensures
            final(self).wf(),
            final(self)@ == old(self)@.insert(MemberId { key: key@, member: member@ }, due_at),
    {
        let ghost id = MemberId { key: key@, member: member@ };
        let ghost before = *self;
        let found: Option<usize> = match self.slots.get(key.as_str()) {
            Some(slot) => Some(*slot),
            None => None,
        };
        let slot: usize = match found {
            Some(slot) => slot,
            None => {
                let slot: usize = match self.spare.pop() {
                    Some(slot) => slot,
                    None => {
                        self.tables.push(StringHashMap::new());
                        self.tables.len() - 1
                    },
                };
                assert(self.tables@[slot as int]@ =~= Map::<Seq<char>, u128>::empty());
                assert(forall|k: Seq<char>|
                    before.slots@.contains_key(k) ==> #[trigger] before.slots@[k] != slot);
                self.slots.insert(key.clone(), slot);
                slot
            },
        };
        let ghost middle = *self;
        self.tables[slot].insert(member, due_at);
        proof {
            assert(self.slots@ == middle.slots@);
            assert(self.slots@.contains_key(key@) && self.slots@[key@] == slot);
            assert(self.table_of(key@).contains_key(member@));
            assert forall|k: Seq<char>| #[trigger] self.slots@.contains_key(k) implies exists|
                m: Seq<char>,
            |
                self.table_of(k).contains_key(m) by {
                if k != key@ {
                    assert(before.slots@.contains_key(k));
                    assert(self.table_of(k) == before.table_of(k));
                    let m = choose|m: Seq<char>| before.table_of(k).contains_key(m);
                    assert(self.table_of(k).contains_key(m));
                }
            }
            assert forall|other: MemberId| #[trigger]
                self@.contains_key(other) == before@.insert(id, due_at).contains_key(other) by {
                if other.key != key@ && before.slots@.contains_key(other.key) {
                    assert(self.table_of(other.key) == before.table_of(other.key));
                }
            }
            assert forall|other: MemberId| #[trigger] self@.contains_key(other) implies self@[other]
                == before@.insert(id, due_at)[other] by {
                if other.key != key@ {
                    assert(self.table_of(other.key) == before.table_of(other.key));
                }
            }
            assert(self@ =~= before@.insert(id, due_at));
        }
    }

    /// Ends the member's expiration; nothing changes if it has none.
    pub fn remove(&mut self, key: &str, member: &str)
        requires
            old(self).wf(),
        ensures
            final(self).wf(),
            final(self)@ == old(self)@.remove(MemberId { key: key@, member: member@ }),
    {
        let ghost id = MemberId { key: key@, member: member@ };
        let ghost before = *self;
        let found: Option<usize> = match self.slots.get(key) {
            Some(slot) => Some(*slot),
            None => None,
        };
        match found {
            Some(slot) => {
                self.tables[slot].remove(member);
                let ghost emptied = before.table_of(key@).remove(member@);
                assert(self.tables@[slot as int]@ == emptied);
                if self.tables[slot].is_empty() {
                    self.slots.remove(key);
                    self.spare.push(slot);
                    proof {
                        assert forall|k: Seq<char>| #[trigger]
                            self.slots@.contains_key(k) implies self.table_of(k)
                            == before.table_of(k) by {
                            assert(before.slots@.contains_key(k));
                        }
                        assert forall|k: Seq<char>| #[trigger]
                            self.slots@.contains_key(k) implies exists|m: Seq<char>|
                            self.table_of(k).contains_key(m) by {
                            assert(before.slots@.contains_key(k));
                            let m = choose|m: Seq<char>| before.table_of(k).contains_key(m);
                            assert(self.table_of(k).contains_key(m));
                        }
                    }
                } else {
                    proof {
                        assert(self.table_of(key@) == before.table_of(key@).remove(member@));
                        assert(!(self.table_of(key@).dom() =~= Set::<Seq<char>>::empty()));
                        assert forall|k: Seq<char>| #[trigger]
                            self.slots@.contains_key(k) implies exists|m: Seq<char>|
                            self.table_of(k).contains_key(m) by {
                            if k != key@ {
                                assert(self.table_of(k) == before.table_of(k));
                                let m = choose|m: Seq<char>| before.table_of(k).contains_key(m);
                                assert(self.table_of(k).contains_key(m));
                            } else {
                                let m = choose|m: Seq<char>|
                                    self.table_of(key@).dom().contains(m);
                                assert(self.table_of(k).contains_key(m));
                            }
                        }
                    }
                }
                proof {
                    assert forall|other: MemberId| #[trigger]
                        self@.contains_key(other) == before@.remove(id).contains_key(other) by {
                        if other.key != key@ {
                            if before.slots@.contains_key(other.key) {
                                assert(self.slots@.contains_key(other.key));
                                assert(self.table_of(other.key) == before.table_of(other.key));
                            }
                        } else if self.slots@.contains_key(key@) {
                            assert(self.table_of(key@) == before.table_of(key@).remove(member@));
                        } else {
                            assert(emptied.dom() =~= Set::<Seq<char>>::empty());
                            assert(!emptied.contains_key(other.member));
                        }
                    }
                    assert forall|other: MemberId| #[trigger]
                        self@.contains_key(other) implies self@[other] == before@.remove(
                        id,
                    )[other] by {
                        if other.key != key@ {
                            assert(self.table_of(other.key) == before.table_of(other.key));
                        }
                    }
                    assert(self@ =~= before@.remove(id));
                }
            },
            None => {
                proof {
                    assert(!before@.contains_key(id));
                    assert(self@ =~= before@.remove(id));
                }
            },
        }
    }
}

} // verus!

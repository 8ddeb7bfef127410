//! One cycle of the reaper: take in what was scheduled, find what is due,
//! confirm it against the index, and batch it by collection.

use crate::heap::DueHeap;
use crate::index::DueTimeIndex;
use crate::member::{MemberId, Pending};
use crate::queue::ExpirationQueue;
use vstd::hash_map::StringHashMap;
use vstd::multiset::{axiom_filter_count, lemma_multiset_empty_len, Multiset};
use vstd::prelude::*;
use vstd::seq_lib::{to_multiset_contains, to_multiset_len, to_multiset_remove};

verus! {

/// The members of one collection that a cycle found due and confirmed.
#[derive(Debug, PartialEq, Eq)]
pub struct Batch {
    pub key: String,
    pub members: Vec<String>,
}

/// The batch is for the collection of `id` and lists its member.
pub open spec fn batch_holds(batch: Batch, id: MemberId) -> bool {
    batch.key@ == id.key && exists|j: int|
        0 <= j < batch.members@.len() && (#[trigger] batch.members@[j])@ == id.member
}

/// All the members that the batches list.
pub open spec fn batched(batches: Seq<Batch>) -> Set<MemberId> {
    Set::new(
        |id: MemberId| exists|i: int| 0 <= i < batches.len() && batch_holds(#[trigger] batches[i], id),
    )
}

/// There is one batch per collection, none is empty, and none lists a
/// member twice.
pub open spec fn batches_distinct(batches: Seq<Batch>) -> bool {
    &&& forall|i: int, j: int|
        0 <= i < j < batches.len() ==> (#[trigger] batches[i]).key@ != (#[trigger] batches[j]).key@
    &&& forall|i: int| 0 <= i < batches.len() ==> (#[trigger] batches[i]).members@.len() > 0
    &&& forall|i: int, a: int, b: int|
        0 <= i < batches.len() && 0 <= a < b < batches[i].members@.len()
            ==> (#[trigger] batches[i].members@[a])@ != (#[trigger] batches[i].members@[b])@
}

/// The members that a cycle at `now` confirms: those whose due-time in the
/// index has come and is matched by a pending entry. An entry with any
/// other due-time is stale and confirms nothing, and a member that the index
/// does not hold is never confirmed.
pub open spec fn confirmed(held: Multiset<Pending>, index: Map<MemberId, u128>, now: u64) -> Set<
    MemberId,
> {
    Set::new(
        |id: MemberId|
            index.contains_key(id) && index[id] <= now && held.count(
                Pending { id, due: index[id] },
            ) > 0,
    )
}

/// The pending entries that a cycle at `now` leaves for later ones.
pub open spec fn not_yet_due(held: Multiset<Pending>, now: u64) -> Multiset<Pending> {
    held.filter(|p: Pending| p.due > now)
}

/// The members confirmed so far in a cycle that began with `start` pending
/// and has `left` still to look at.
spec fn settled(
    start: Multiset<Pending>,
    left: Multiset<Pending>,
    index: Map<MemberId, u128>,
    now: u64,
) -> Set<MemberId> {
    Set::new(
        |id: MemberId|
            index.contains_key(id) && index[id] <= now && start.count(
                Pending { id, due: index[id] },
            ) > left.count(Pending { id, due: index[id] }),
    )
}

/// Batches under construction, with the place of each collection's batch.
struct Grouping {
    slots: StringHashMap<usize>,
    groups: Vec<Batch>,
}

impl Grouping {
    spec fn wf(&self) -> bool {
        &&& forall|g: int|
            0 <= g < self.groups@.len() ==> self.slots@.contains_key(
                (#[trigger] self.groups@[g]).key@,
            ) && self.slots@[self.groups@[g].key@] == g
        &&& forall|k: Seq<char>| #[trigger]
            self.slots@.contains_key(k) ==> self.slots@[k] < self.groups@.len()
                && self.groups@[self.slots@[k] as int].key@ == k
        &&& batches_distinct(self.groups@)
    }

    fn new() -> (grouping: Self)
        ensures
            grouping.wf(),
            batched(grouping.groups@) == Set::<MemberId>::empty(),
    {
        let grouping = Grouping { slots: StringHashMap::new(), groups: Vec::new() };
        assert(batched(grouping.groups@) =~= Set::<MemberId>::empty());
        grouping
    }

    /// Lists a member in the batch of its collection, opening one if needed.
    fn add(&mut self, key: String, member: String)
        requires
            old(self).wf(),
            !batched(old(self).groups@).contains(MemberId { key: key@, member: member@ }),
        ensures
            final(self).wf(),
            batched(final(self).groups@) == batched(old(self).groups@).insert(
                MemberId { key: key@, member: member@ },
            ),
    {
        let ghost id = MemberId { key: key@, member: member@ };
        let ghost before = self.groups@;
        let found: Option<usize> = match self.slots.get(key.as_str()) {
            Some(slot) => Some(*slot),
            None => None,
        };
        match found {
            Some(g) => {
                assert forall|j: int| 0 <= j < before[g as int].members@.len() implies (
                #[trigger] before[g as int].members@[j])@ != member@ by {
                    if before[g as int].members@[j]@ == member@ {
                        assert(batch_holds(before[g as int], id));
                    }
                }
                self.groups[g].members.push(member);
                proof {
                    let after = self.groups@;
                    assert(after[g as int].key == before[g as int].key);
                    assert(after[g as int].members@ == before[g as int].members@.push(member));
                    assert forall|other: MemberId| #[trigger]
                        batched(after).contains(other) == batched(before).insert(id).contains(
                            other,
                        ) by {
                        if batched(after).contains(other) {
                            let i = choose|i: int|
                                0 <= i < after.len() && batch_holds(#[trigger] after[i], other);
                            if i == g {
                                let j = choose|j: int|
                                    0 <= j < after[i].members@.len() && (
                                    #[trigger] after[i].members@[j])@ == other.member;
                                if j < before[i].members@.len() {
                                    assert(before[i].members@[j]@ == other.member);
                                    assert(batch_holds(before[i], other));
                                }
                            } else {
                                assert(batch_holds(before[i], other));
                            }
                        }
                        if batched(before).contains(other) {
                            let i = choose|i: int|
                                0 <= i < before.len() && batch_holds(#[trigger] before[i], other);
                            let j = choose|j: int|
                                0 <= j < before[i].members@.len() && (
                                #[trigger] before[i].members@[j])@ == other.member;
                            assert(after[i].members@[j]@ == other.member);
                            assert(batch_holds(after[i], other));
                        }
                        if other == id {
                            assert(after[g as int].members@[before[g as int].members@.len() as int]@
                                == member@);
                            assert(batch_holds(after[g as int], other));
                        }
                    }
                    assert(batched(after) =~= batched(before).insert(id));
                }
            },
            None => {
                let g: usize = self.groups.len();
                self.slots.insert(key.clone(), g);
                let mut members: Vec<String> = Vec::new();
                members.push(member);
                self.groups.push(Batch { key, members });
                proof {
                    let after = self.groups@;
                    assert forall|other: MemberId| #[trigger]
                        batched(after).contains(other) == batched(before).insert(id).contains(
                            other,
                        ) by {
                        if batched(after).contains(other) {
                            let i = choose|i: int|
                                0 <= i < after.len() && batch_holds(#[trigger] after[i], other);
                            if i < before.len() {
                                assert(batch_holds(before[i], other));
                            }
                        }
                        if batched(before).contains(other) {
                            let i = choose|i: int|
                                0 <= i < before.len() && batch_holds(#[trigger] before[i], other);
                            assert(batch_holds(after[i], other));
                        }
                        if other == id {
                            assert(after[g as int].members@[0]@ == member@);
                            assert(batch_holds(after[g as int], other));
                        }
                    }
                    assert(batched(after) =~= batched(before).insert(id));
                }
            },
        }
    }
}

/// Moves every queued member into the heap and leaves the queue empty.
pub fn drain(queue: &mut ExpirationQueue, heap: &mut DueHeap)
    requires
        old(queue).wf(),
        old(heap).wf(),
    ensures
        final(queue).wf(),
        final(heap).wf(),
        final(queue).capacity() == old(queue).capacity(),
        final(queue)@ == Seq::<Pending>::empty(),
        final(heap)@ == old(heap)@.add(old(queue)@.to_multiset()),
{
    loop
        invariant
            queue.wf(),
            heap.wf(),
            queue.capacity() == old(queue).capacity(),
            heap@.add(queue@.to_multiset()) == old(heap)@.add(old(queue)@.to_multiset()),
        ensures
            queue.wf(),
            heap.wf(),
            queue.capacity() == old(queue).capacity(),
            queue@ == Seq::<Pending>::empty(),
            heap@ == old(heap)@.add(old(queue)@.to_multiset()),
        decreases queue@.len(),
    {
        let ghost waiting = queue@;
        let ghost held = heap@;
        match queue.try_pop() {
            Some(member) => {
                heap.push(member);
                proof {
                    to_multiset_remove(waiting, 0);
                    to_multiset_contains(waiting, waiting[0]);
                    assert(waiting.contains(waiting[0]));
                    assert(waiting.remove(0) =~= waiting.drop_first());
                    assert(heap@.add(queue@.to_multiset()) =~= held.add(waiting.to_multiset()));
                }
            },
            None => {
                proof {
                    assert(queue@ =~= Seq::<Pending>::empty());
                    to_multiset_len(queue@);
                    lemma_multiset_empty_len(queue@.to_multiset());
                    assert(heap@ =~= heap@.add(queue@.to_multiset()));
                }
                break ;
            },
        }
    }
}

/// Takes every member due at `now` out of the heap and confirms it against
/// the index. A confirmed member leaves the index and is listed in the batch
/// of its collection; a stale or cancelled one is dropped.
pub fn reap(heap: &mut DueHeap, index: &mut DueTimeIndex, now: u64) -> (batches: Vec<Batch>)
    requires
        old(heap).wf(),
        old(index).wf(),
    ensures
        final(heap).wf(),
        final(index).wf(),
        final(heap)@ == not_yet_due(old(heap)@, now),
        final(index)@ == old(index)@.remove_keys(confirmed(old(heap)@, old(index)@, now)),
        batched(batches@) == confirmed(old(heap)@, old(index)@, now),
        batches_distinct(batches@),
{
    broadcast use axiom_filter_count;

    let ghost start = heap@;
    let ghost first = index@;
    let mut grouping = Grouping::new();
    proof {
        assert(settled(start, heap@, first, now) =~= Set::<MemberId>::empty());
        assert(index@ =~= first.remove_keys(settled(start, heap@, first, now)));
    }
    loop
        invariant
            heap.wf(),
            index.wf(),
            grouping.wf(),
            forall|p: Pending| heap@.count(p) <= start.count(p),
            forall|p: Pending| p.due > now ==> heap@.count(p) == start.count(p),
            index@ == first.remove_keys(settled(start, heap@, first, now)),
            batched(grouping.groups@) == settled(start, heap@, first, now),
        ensures
            heap.wf(),
            index.wf(),
            grouping.wf(),
            heap@ == not_yet_due(start, now),
            index@ == first.remove_keys(confirmed(start, first, now)),
            batched(grouping.groups@) == confirmed(start, first, now),
        decreases heap@.len(),
    {
        let due_now: bool = match heap.peek() {
            Some(top) => top.expire_at <= now as u128,
            None => false,
        };
        if !due_now {
            proof {
                assert forall|p: Pending| p.due <= now implies heap@.count(p) == 0 by {
                    if heap@.len() == 0 {
                        lemma_multiset_empty_len(heap@);
                    }
                }
                assert(heap@ =~= not_yet_due(start, now));
                assert(settled(start, heap@, first, now) =~= confirmed(start, first, now));
            }
            break ;
        }
        let ghost held = heap@;
        let ghost kept = index@;
        let ghost listed = batched(grouping.groups@);
        match heap.pop() {
            Some(entry) => {
                let ghost p = entry@;
                let current: Option<u128> = index.get(entry.key.as_str(), entry.member.as_str());
                let live: bool = match current {
                    Some(due) => due == entry.expire_at,
                    None => false,
                };
                if live {
                    index.remove(entry.key.as_str(), entry.member.as_str());
                    grouping.add(entry.key, entry.member);
                    proof {
                        assert(settled(start, heap@, first, now) =~= settled(
                            start,
                            held,
                            first,
                            now,
                        ).insert(p.id));
                        assert(index@ =~= first.remove_keys(settled(start, heap@, first, now)));
                    }
                } else {
                    proof {
                        assert(settled(start, heap@, first, now) =~= settled(
                            start,
                            held,
                            first,
                            now,
                        ));
                    }
                }
            },
            None => {},
        }
    }
    grouping.groups
}

} // verus!

//! The reaper's heap: pending members, the one due soonest on top.

use crate::member::{ExpiringMember, Pending};
use vstd::multiset::{lemma_multiset_empty_len, Multiset};
use vstd::prelude::*;
use vstd::seq_lib::{
    to_multiset_build, to_multiset_contains, to_multiset_len, to_multiset_remove,
    to_multiset_update,
};

verus! {

/// What a sequence of members stands for, member by member.
pub open spec fn pending_of(s: Seq<ExpiringMember>) -> Seq<Pending> {
    s.map_values(|e: ExpiringMember| e@)
}

/// Place of the parent of the node at place `i` of a binary heap.
pub open spec fn parent(i: int) -> int {
    (i - 1) / 2
}

/// No member is due before its parent.
pub open spec fn heap_ordered(s: Seq<ExpiringMember>) -> bool {
    forall|i: int| 0 < i < s.len() ==> s[parent(i)].expire_at <= (#[trigger] s[i]).expire_at
}

/// Heap order everywhere but between the node at `hole` and its parent;
/// the children of `hole` are in order with its parent.
spec fn ordered_but_above(s: Seq<ExpiringMember>, hole: int) -> bool {
    &&& forall|i: int|
        0 < i < s.len() && i != hole ==> s[parent(i)].expire_at <= (#[trigger] s[i]).expire_at
    &&& forall|i: int|
        0 < i < s.len() && parent(i) == hole && hole > 0 ==> s[parent(hole)].expire_at <= (
        #[trigger] s[i]).expire_at
}

/// Heap order everywhere but between the node at `hole` and its children;
/// the children of `hole` are in order with its parent.
spec fn ordered_but_below(s: Seq<ExpiringMember>, hole: int) -> bool {
    &&& forall|i: int|
        0 < i < s.len() && parent(i) != hole ==> s[parent(i)].expire_at <= (
        #[trigger] s[i]).expire_at
    &&& forall|i: int|
        0 < i < s.len() && parent(i) == hole && hole > 0 ==> s[parent(hole)].expire_at <= (
        #[trigger] s[i]).expire_at
}

/// In a heap-ordered sequence the first member is due no later than any other.
proof fn lemma_root_is_least(s: Seq<ExpiringMember>, i: int)
    requires
        heap_ordered(s),
        0 <= i < s.len(),
    ensures
        s[0].expire_at <= s[i].expire_at,
    decreases i,
{
    if i > 0 {
        lemma_root_is_least(s, parent(i));
    }
}

/// Exchanging two members of a sequence changes nothing in what it holds.
proof fn lemma_swap_keeps_members(s: Seq<ExpiringMember>, i: int, j: int)
    requires
        0 <= i < s.len(),
        0 <= j < s.len(),
    ensures
        pending_of(s.update(i, s[j]).update(j, s[i])).to_multiset() == pending_of(s).to_multiset(),
{
    let held = pending_of(s);
    let halfway = held.update(i, held[j]);
    let swapped = halfway.update(j, held[i]);
    assert(pending_of(s.update(i, s[j]).update(j, s[i])) =~= swapped);
    to_multiset_update(held, i, held[j]);
    to_multiset_update(halfway, j, held[i]);
    to_multiset_contains(held, held[i]);
    to_multiset_contains(held, held[j]);
    assert(held.contains(held[i]));
    assert(held.contains(held[j]));
    assert(swapped.to_multiset() =~= held.to_multiset());
}

/// Exchanges the members at two different places.
fn exchange(items: &mut Vec<ExpiringMember>, i: usize, j: usize)
    requires
        i < old(items).len(),
        j < old(items).len(),
        i != j,
    ensures
        final(items)@ == old(items)@.update(i as int, old(items)@[j as int]).update(
            j as int,
            old(items)@[i as int],
        ),
{
    let mut carried = ExpiringMember { expire_at: 0, key: String::new(), member: String::new() };
    items.set_and_swap(i, &mut carried);
    items.set_and_swap(j, &mut carried);
    items.set_and_swap(i, &mut carried);
    assert(items@ =~= old(items)@.update(i as int, old(items)@[j as int]).update(
        j as int,
        old(items)@[i as int],
    ));
}

/// Min-heap of pending members, ordered by due-time alone. Members due at
/// the same instant leave in no particular order.
pub struct DueHeap {
    items: Vec<ExpiringMember>,
}

impl View for DueHeap {
    type V = Multiset<Pending>;

    closed spec fn view(&self) -> Multiset<Pending> {
        pending_of(self.items@).to_multiset()
    }
}

impl DueHeap {
    /// The members are in heap order.
    pub closed spec fn wf(&self) -> bool {
        heap_ordered(self.items@)
    }

    /// `p` is in `held` and nothing in `held` is due before it.
    pub open spec fn is_soonest(held: Multiset<Pending>, p: Pending) -> bool {
        &&& held.count(p) > 0
        &&& forall|q: Pending| held.count(q) > 0 ==> p.due <= q.due
    }

    /// A heap that holds nothing.
    pub fn new() -> (heap: Self)
        ensures
            heap.wf(),
            heap@ == Multiset::<Pending>::empty(),
    {
        let heap = DueHeap { items: Vec::new() };
        proof {
            to_multiset_len(pending_of(heap.items@));
            lemma_multiset_empty_len(heap@);
        }
        heap
    }

    /// The number of members held, counting each as often as it was pushed.
    pub fn len(&self) -> (n: usize)
        ensures
            n == self@.len(),
    {
        proof {
            pending_of(self.items@).to_multiset_ensures();
        }
        self.items.len()
    }

    /// Adds a member.
    pub fn push(&mut self, member: ExpiringMember)
        requires
            old(self).wf(),
        ensures
            final(self).wf(),
            final(self)@ == old(self)@.insert(member@),
    {
        self.items.push(member);
        proof {
            assert(pending_of(self.items@) =~= pending_of(old(self).items@).push(member@));
            to_multiset_build(pending_of(old(self).items@), member@);
        }
        let mut i: usize = self.items.len() - 1;
        while i > 0 && self.items[(i - 1) / 2].expire_at > self.items[i].expire_at
            invariant
                i < self.items@.len(),
                ordered_but_above(self.items@, i as int),
                pending_of(self.items@).to_multiset() == old(self)@.insert(member@),
            decreases i,
        {
            let up: usize = (i - 1) / 2;
            proof {
                lemma_swap_keeps_members(self.items@, i as int, up as int);
            }
            let ghost before = self.items@;
            exchange(&mut self.items, i, up);
            proof {
                let after = self.items@;
                assert forall|k: int| 0 < k < after.len() && k != up implies after[parent(
                    k,
                )].expire_at <= (#[trigger] after[k]).expire_at by {
                    if k != i {
                        assert(before[parent(k)].expire_at <= before[k].expire_at);
                    }
                }
                assert forall|k: int|
                    0 < k < after.len() && parent(k) == up && up > 0 implies after[parent(
                    up as int,
                )].expire_at <= (#[trigger] after[k]).expire_at by {
                    assert(before[parent(up as int)].expire_at <= before[up as int].expire_at);
                    if k != i {
                        assert(before[parent(k)].expire_at <= before[k].expire_at);
                    }
                }
            }
            i = up;
        }
    }

    /// The member due soonest, left in place; `None` if the heap is empty.
    pub fn peek(&self) -> (top: Option<&ExpiringMember>)
        requires
            self.wf(),
        ensures
            top is None <==> self@.len() == 0,
            top is Some ==> Self::is_soonest(self@, top->Some_0@),
    {
        proof {
            pending_of(self.items@).to_multiset_ensures();
        }
        if self.items.len() == 0 {
            None
        } else {
            proof {
                self.lemma_first_is_soonest();
            }
            Some(&self.items[0])
        }
    }

    /// The first member of a heap that holds any is its soonest.
    proof fn lemma_first_is_soonest(&self)
        requires
            self.wf(),
            self.items@.len() > 0,
        ensures
            Self::is_soonest(self@, self.items@[0]@),
    {
        let p = pending_of(self.items@);
        to_multiset_contains(p, p[0]);
        assert(p.contains(p[0]));
        assert forall|q: Pending| self@.count(q) > 0 implies p[0].due <= q.due by {
            to_multiset_contains(p, q);
            let k = choose|k: int| 0 <= k < p.len() && p[k] == q;
            lemma_root_is_least(self.items@, k);
        }
    }

    /// Takes out the member due soonest; `None` if the heap is empty.
    pub fn pop(&mut self) -> (top: Option<ExpiringMember>)
        requires
            old(self).wf(),
        ensures
            final(self).wf(),
            top is None <==> old(self)@.len() == 0,
            top is None ==> final(self)@ == old(self)@,
            top is Some ==> Self::is_soonest(old(self)@, top->Some_0@) && final(self)@ == old(
                self,
            )@.remove(top->Some_0@),
    {
        proof {
            pending_of(self.items@).to_multiset_ensures();
        }
        if self.items.len() == 0 {
            return None;
        }
        proof {
            self.lemma_first_is_soonest();
        }
        let ghost before = self.items@;
        let top = self.items.swap_remove(0);
        proof {
            let p = pending_of(before);
            let last = before.len() - 1;
            lemma_swap_keeps_members(before, 0, last);
            let swapped = before.update(0, before[last]).update(last, before[0]);
            assert(self.items@ =~= swapped.remove(last));
            assert(pending_of(self.items@) =~= pending_of(swapped).remove(last));
            to_multiset_remove(pending_of(swapped), last);
            assert forall|k: int|
                0 < k < self.items@.len() && parent(k) != 0 implies self.items@[parent(
                k,
            )].expire_at <= (#[trigger] self.items@[k]).expire_at by {
                assert(before[parent(k)].expire_at <= before[k].expire_at);
            }
        }
        let n: usize = self.items.len();
        let mut i: usize = 0;
        loop
            invariant
                n == self.items@.len(),
                i < n || n == 0,
                ordered_but_below(self.items@, i as int),
                pending_of(self.items@).to_multiset() == old(self)@.remove(top@),
            ensures
                heap_ordered(self.items@),
                pending_of(self.items@).to_multiset() == old(self)@.remove(top@),
            decreases n - i,
        {
            if n < 2 || i > (n - 2) / 2 {
                proof {
                    assert forall|k: int| 0 < k < self.items@.len() implies self.items@[parent(
                        k,
                    )].expire_at <= (#[trigger] self.items@[k]).expire_at by {
                        assert(parent(k) != i);
                    }
                }
                break ;
            }
            let left: usize = 2 * i + 1;
            let right: usize = left + 1;
            let least: usize = if right < n && self.items[right].expire_at
                < self.items[left].expire_at {
                right
            } else {
                left
            };
            if self.items[i].expire_at <= self.items[least].expire_at {
                proof {
                    assert forall|k: int| 0 < k < self.items@.len() implies self.items@[parent(
                        k,
                    )].expire_at <= (#[trigger] self.items@[k]).expire_at by {
                        if parent(k) == i {
                            assert(k == left || k == right);
                        }
                    }
                }
                break ;
            }
            proof {
                lemma_swap_keeps_members(self.items@, i as int, least as int);
            }
            let ghost held = self.items@;
            exchange(&mut self.items, i, least);
            proof {
                let after = self.items@;
                assert forall|k: int| 0 < k < after.len() && parent(k) != least implies after[parent(
                    k,
                )].expire_at <= (#[trigger] after[k]).expire_at by {
                    if parent(k) == i {
                        assert(k == left || k == right);
                    } else if k == i {
                        assert(parent(least as int) == i);
                    } else {
                        assert(held[parent(k)].expire_at <= held[k].expire_at);
                    }
                }
                assert forall|k: int|
                    0 < k < after.len() && parent(k) == least && least > 0 implies after[parent(
                    least as int,
                )].expire_at <= (#[trigger] after[k]).expire_at by {
                    assert(held[parent(k)].expire_at <= held[k].expire_at);
                }
            }
            i = least;
        }
        Some(top)
    }
}

} // verus!

//! The pending queue: a bounded hand-off of newly scheduled members.

use crate::member::{ExpiringMember, Pending};
use crossbeam::queue::ArrayQueue;
use vstd::prelude::*;

verus! {

/// `crossbeam::queue::ArrayQueue`, taken as it is: nothing inside it is
/// visible here, and all that is said of it is said by the items below.
#[verifier::external_type_specification]
#[verifier::external_body]
#[verifier::reject_recursive_types(T)]
pub struct ExArrayQueue<T>(ArrayQueue<T>);

/// The members a queue holds, oldest first.
pub uninterp spec fn queued(q: ArrayQueue<ExpiringMember>) -> Seq<Pending>;

/// The number of members a queue was made to hold.
pub uninterp spec fn queue_limit(q: ArrayQueue<ExpiringMember>) -> nat;

/// `ArrayQueue::new`: an empty queue that holds up to `capacity` members.
/// The constructor refuses, by a panic, a capacity of zero and one so large
/// that the power of two above it does not fit the queue's index; those two
/// are left out, and no other capacity is.
#[verifier::external_body]
fn queue_new(capacity: usize) -> (q: ArrayQueue<ExpiringMember>)
    requires
        0 < capacity <= usize::MAX / 2,
    ensures
        queued(q) == Seq::<Pending>::empty(),
        queue_limit(q) == capacity,
{
    ArrayQueue::new(capacity)
}

/// `ArrayQueue::push`, called by the queue's only holder: a queue with room
/// takes the member at its tail; a full queue is left as it was and hands the
/// member back.
#[verifier::external_body]
fn queue_push(q: &mut ArrayQueue<ExpiringMember>, member: ExpiringMember) -> (r: Result<(), ExpiringMember>)
    ensures
        queue_limit(*final(q)) == queue_limit(*old(q)),
        queued(*old(q)).len() < queue_limit(*old(q)) ==> r is Ok && queued(*final(q)) == queued(
            *old(q),
        ).push(member@),
        queued(*old(q)).len() >= queue_limit(*old(q)) ==> r is Err && r->Err_0 == member
            && queued(*final(q)) == queued(*old(q)),
{
    q.push(member)
}

/// `ArrayQueue::pop`, called by the queue's only holder: the oldest member
/// leaves the queue, or `None` comes back from an empty queue.
#[verifier::external_body]
fn queue_pop(q: &mut ArrayQueue<ExpiringMember>) -> (r: Option<ExpiringMember>)
    ensures
        queue_limit(*final(q)) == queue_limit(*old(q)),
        queued(*old(q)).len() == 0 ==> r is None && queued(*final(q)) == queued(*old(q)),
        queued(*old(q)).len() > 0 ==> r is Some && r->Some_0@ == queued(*old(q)).first()
            && queued(*final(q)) == queued(*old(q)).drop_first(),
{
    q.pop()
}

/// Bounded first-in, first-out queue of scheduled members awaiting the reaper.
pub struct ExpirationQueue {
    queue: ArrayQueue<ExpiringMember>,
}

impl View for ExpirationQueue {
    type V = Seq<Pending>;

    closed spec fn view(&self) -> Seq<Pending> {
        queued(self.queue)
    }
}

impl ExpirationQueue {
    /// The number of members the queue holds at most.
    pub closed spec fn capacity(&self) -> nat {
        queue_limit(self.queue)
    }

    /// The queue never holds more than its capacity.
    pub closed spec fn wf(&self) -> bool {
        queued(self.queue).len() <= queue_limit(self.queue)
    }

    /// A well-formed queue is within its capacity.
    pub proof fn lemma_bounded(&self)
        requires
            self.wf(),
        ensures
            self@.len() <= self.capacity(),
    {
    }

    /// An empty queue of the given capacity. A queue holds at least one
    /// member, and at most half of what `usize` can count.
    pub fn new(capacity: usize) -> (q: Self)
        requires
            0 < capacity <= usize::MAX / 2,
        ensures
            q.wf(),
            q@ == Seq::<Pending>::empty(),
            q.capacity() == capacity,
    {
        ExpirationQueue { queue: queue_new(capacity) }
    }

    /// Appends a member if there is room; a full queue is left unchanged and
    /// the member is handed back.
    pub fn add_member(&mut self, member: ExpiringMember) -> (r: Result<(), ExpiringMember>)
        requires
            old(self).wf(),
        ensures
            final(self).wf(),
            final(self).capacity() == old(self).capacity(),
            old(self)@.len() < old(self).capacity() ==> r is Ok && final(self)@ == old(self)@.push(
                member@,
            ),
            old(self)@.len() >= old(self).capacity() ==> r is Err && r->Err_0 == member
                && final(self)@ == old(self)@,
    {
        queue_push(&mut self.queue, member)
    }

    /// Takes the oldest member out, or returns `None` when the queue is empty.
    pub fn try_pop(&mut self) -> (r: Option<ExpiringMember>)
        requires
            old(self).wf(),
        ensures
            final(self).wf(),
            final(self).capacity() == old(self).capacity(),
            old(self)@.len() == 0 ==> r is None && final(self)@ == old(self)@,
            old(self)@.len() > 0 ==> r is Some && r->Some_0@ == old(self)@.first() && final(self)@
                == old(self)@.drop_first(),
    {
        queue_pop(&mut self.queue)
    }
}

} // verus!

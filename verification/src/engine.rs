//! The expiration engine: the index, the pending queue and the reaper's heap
//! under one owner, with the operations that requests and the reaper invoke.

use crate::command::{CommandError, Status};
use crate::heap::DueHeap;
use crate::index::DueTimeIndex;
use crate::member::{ExpiringMember, MemberId, Pending};
use crate::queue::ExpirationQueue;
use crate::reaper::{batched, batches_distinct, confirmed, drain, not_yet_due, reap, Batch};
use crate::store::{removal_of, CollectionKind, Removal};
use crate::ttl::{due_at, due_time, request_of, Request, TimeUnit};
use vstd::multiset::Multiset;
use vstd::prelude::*;

verus! {

/// The capacity of the pending queue of an engine made with
/// [`Engine::with_default_capacity`].
pub const DEFAULT_QUEUE_CAPACITY: usize = 10000;

/// The time, in milliseconds, that the reaper rests between two cycles.
pub const REAPER_INTERVAL_MS: u64 = 100;

/// What an engine stands for in contracts.
pub struct EngineView {
    /// The due-time of every member with an active expiration.
    pub due_times: Map<MemberId, u128>,
    /// The members scheduled since the last cycle, oldest first.
    pub queued: Seq<Pending>,
    /// The members that earlier cycles took in and did not find due.
    pub held: Multiset<Pending>,
    /// The number of members the queue holds at most.
    pub capacity: nat,
    /// Whether the host has been told to run the reaper.
    pub running: bool,
}

impl EngineView {
    /// An engine that has seen no request.
    pub open spec fn fresh(capacity: nat) -> EngineView {
        EngineView {
            due_times: Map::empty(),
            queued: Seq::empty(),
            held: Multiset::empty(),
            capacity,
            running: false,
        }
    }

    /// The queue has room for one more member.
    pub open spec fn has_room(self) -> bool {
        self.queued.len() < self.capacity
    }

    /// Everything the next cycle will look at.
    pub open spec fn pending(self) -> Multiset<Pending> {
        self.held.add(self.queued.to_multiset())
    }

    /// The engine after the expiration of `id` was cancelled.
    pub open spec fn cancel(self, id: MemberId) -> EngineView {
        EngineView {
            due_times: self.due_times.remove(id),
            queued: self.queued,
            held: self.held,
            capacity: self.capacity,
            running: self.running,
        }
    }

    /// The engine after `id` was to be removed at once from a collection of
    /// the given kind: a refused request changes nothing.
    pub open spec fn expire_now(self, id: MemberId, kind: CollectionKind) -> EngineView {
        if kind.supported() {
            self.cancel(id)
        } else {
            self
        }
    }

    /// The engine after `id` was scheduled to come due at `due`: the index
    /// holds the new due-time, and the queue the new entry if it had room.
    pub open spec fn schedule(self, id: MemberId, due: u128) -> EngineView {
        EngineView {
            due_times: self.due_times.insert(id, due),
            queued: if self.has_room() {
                self.queued.push(Pending { id, due })
            } else {
                self.queued
            },
            held: self.held,
            capacity: self.capacity,
            running: true,
        }
    }

    /// The members that a cycle at `now` confirms and hands out for removal.
    pub open spec fn due(self, now: u64) -> Set<MemberId> {
        confirmed(self.pending(), self.due_times, now)
    }

    /// The engine after a cycle at `now`: the confirmed members have left
    /// the index, the queue is empty, and only entries that are not yet due
    /// are kept for later.
    pub open spec fn cycle(self, now: u64) -> EngineView {
        EngineView {
            due_times: self.due_times.remove_keys(self.due(now)),
            queued: Seq::empty(),
            held: not_yet_due(self.pending(), now),
            capacity: self.capacity,
            running: self.running,
        }
    }

    /// The engine after the request that `ttl` makes for `id`.
    pub open spec fn request(
        self,
        id: MemberId,
        ttl: i64,
        unit: TimeUnit,
        now: u64,
        kind: CollectionKind,
    ) -> EngineView {
        match request_of(ttl) {
            Request::Cancel => self.cancel(id),
            Request::ExpireNow => self.expire_now(id, kind),
            Request::Schedule => self.schedule(id, due_at(now, ttl, unit) as u128),
        }
    }
}

/// What a scheduling call did.
#[derive(Clone, Copy, Debug, PartialEq, Eq, Structural)]
pub struct Scheduled {
    /// The due-time now held by the index.
    pub due_at: u128,
    /// Whether the pending queue took the entry. If it was full the entry is
    /// lost, and the reaper learns of the member only when it is scheduled
    /// again.
    pub enqueued: bool,
    /// Whether this call is the one on which the host is to start the reaper.
    pub start_reaper: bool,
}

/// What a request was answered with, and what is left for the host to do.
#[derive(Clone, Copy, Debug, PartialEq, Eq, Structural)]
pub struct Outcome {
    /// The status to report to the caller.
    pub status: Status,
    /// The removal that the host is to perform on the data store before it
    /// answers, if any.
    pub removal: Option<Removal>,
    /// Whether the host is to start the reaper now.
    pub start_reaper: bool,
}

/// The answer that the request made by `ttl` is owed in the state `before`.
pub open spec fn answer(before: EngineView, ttl: i64, kind: CollectionKind) -> Result<
    Outcome,
    CommandError,
> {
    match request_of(ttl) {
        Request::Cancel => Ok(
            Outcome { status: Status::NoActiveExpiration, removal: None, start_reaper: false },
        ),
        Request::ExpireNow => if kind.supported() {
            Ok(Outcome { status: Status::Acted, removal: removal_of(kind), start_reaper: false })
        } else {
            Err(CommandError::UnsupportedType)
        },
        Request::Schedule => Ok(
            Outcome { status: Status::Acted, removal: None, start_reaper: !before.running },
        ),
    }
}

/// The expiration engine.
pub struct Engine {
    index: DueTimeIndex,
    queue: ExpirationQueue,
    heap: DueHeap,
    running: bool,
}

impl View for Engine {
    type V = EngineView;

    closed spec fn view(&self) -> EngineView {
        EngineView {
            due_times: self.index@,
            queued: self.queue@,
            held: self.heap@,
            capacity: self.queue.capacity(),
            running: self.running,
        }
    }
}

impl Engine {
    /// The index, the queue and the heap are each well formed.
    pub closed spec fn wf(&self) -> bool {
        &&& self.index.wf()
        &&& self.queue.wf()
        &&& self.heap.wf()
    }

    /// The pending queue of a well-formed engine is within its capacity.
    pub proof fn lemma_queue_is_bounded(&self)
        requires
            self.wf(),
        ensures
            self@.queued.len() <= self@.capacity,
    {
        self.queue.lemma_bounded();
    }

    /// An engine that has seen no request, with a pending queue of the given
    /// capacity.
    pub fn new(capacity: usize) -> (engine: Self)
        requires
            0 < capacity <= usize::MAX / 2,
        ensures
            engine.wf(),
            engine@ == EngineView::fresh(capacity as nat),
    {
        Engine {
            index: DueTimeIndex::new(),
            queue: ExpirationQueue::new(capacity),
            heap: DueHeap::new(),
            running: false,
        }
    }

    /// An engine with a pending queue of [`DEFAULT_QUEUE_CAPACITY`] members.
    pub fn with_default_capacity() -> (engine: Self)
        ensures
            engine.wf(),
            engine@ == EngineView::fresh(DEFAULT_QUEUE_CAPACITY as nat),
    {
        Engine::new(DEFAULT_QUEUE_CAPACITY)
    }

    /// The due-time of a member, if it has an active expiration.
    pub fn due_time_of(&self, key: &str, member: &str) -> (due: Option<u128>)
        requires
            self.wf(),
        ensures
            due == self@.due_times.get(MemberId { key: key@, member: member@ }),
    {
        self.index.get(key, member)
    }

    /// Whether the host has been told to run the reaper.
    pub fn is_running(&self) -> (running: bool)
        ensures
            running == self@.running,
    {
        self.running
    }

    /// Marks the reaper as running. Returns `true` on the call that changes
    /// the mark: the host starts its reaper on that call and on no other.
    pub fn start(&mut self) -> (started: bool)
        ensures
            started == !old(self)@.running,
            final(self).wf() == old(self).wf(),
            final(self)@ == (EngineView {
                due_times: old(self)@.due_times,
                queued: old(self)@.queued,
                held: old(self)@.held,
                capacity: old(self)@.capacity,
                running: true,
            }),
    {
        let started = !self.running;
        self.running = true;
        started
    }

    /// Marks the reaper as stopped. Returns `true` if it was running; what
    /// is scheduled stays scheduled.
    pub fn stop(&mut self) -> (stopped: bool)
        ensures
            stopped == old(self)@.running,
            final(self).wf() == old(self).wf(),
            final(self)@ == (EngineView {
                due_times: old(self)@.due_times,
                queued: old(self)@.queued,
                held: old(self)@.held,
                capacity: old(self)@.capacity,
                running: false,
            }),
    {
        let stopped = self.running;
        self.running = false;
        stopped
    }

    /// Ends the member's expiration, if it has one. The data store is not
    /// touched, and an entry still pending for the member has become stale.
    pub fn cancel(&mut self, key: &str, member: &str) -> (status: Status)
        requires
            old(self).wf(),
        ensures
            final(self).wf(),
            status == Status::NoActiveExpiration,
            final(self)@ == old(self)@.cancel(MemberId { key: key@, member: member@ }),
    {
        self.index.remove(key, member);
        Status::NoActiveExpiration
    }

    /// Decides the immediate removal of a member from a collection of the
    /// given kind. For a collection that has members the removal to perform
    /// is returned; an absent collection needs none. Either way the member's
    /// expiration ends. A key that holds anything else is refused and
    /// nothing changes.
    pub fn expire_now(&mut self, key: &str, member: &str, kind: CollectionKind) -> (r: Result<
        Option<Removal>,
        CommandError,
    >)
        requires
            old(self).wf(),
        ensures
            final(self).wf(),
            final(self)@ == old(self)@.expire_now(MemberId { key: key@, member: member@ }, kind),
            kind.supported() ==> r == Ok::<Option<Removal>, CommandError>(removal_of(kind)),
            !kind.supported() ==> r == Err::<Option<Removal>, CommandError>(
                CommandError::UnsupportedType,
            ),
    {
        match kind {
            CollectionKind::Unsupported => Err(CommandError::UnsupportedType),
            _ => {
                let op = kind.removal();
                self.index.remove(key, member);
                Ok(op)
            },
        }
    }

    /// Gives the member a due-time of `now` plus the time-to-live, whatever
    /// it had before, and queues an entry for the reaper. A full queue drops
    /// the entry; the index is set all the same.
    pub fn schedule(&mut self, key: String, member: String, ttl: i64, unit: TimeUnit, now: u64) -> (done:
        Scheduled)
        requires
            old(self).wf(),
            ttl > 0,
        ensures
            final(self).wf(),
            final(self)@ == old(self)@.schedule(
                MemberId { key: key@, member: member@ },
                done.due_at,
            ),
            done.due_at == due_at(now, ttl, unit),
            done.enqueued == old(self)@.has_room(),
            done.start_reaper == !old(self)@.running,
    {
        let due = due_time(now, ttl, unit);
        let entry = ExpiringMember { expire_at: due, key: key.clone(), member: member.clone() };
        self.index.set(key, member, due);
        let enqueued = match self.queue.add_member(entry) {
            Ok(_) => true,
            Err(_) => false,
        };
        let start_reaper = !self.running;
        self.running = true;
        Scheduled { due_at: due, enqueued, start_reaper }
    }

    /// Serves one request: a negative time-to-live cancels, zero removes the
    /// member at once, a positive one schedules. `kind` is what the data
    /// store holds under the key; it is read only when the member is to be
    /// removed at once.
    pub fn schedule_or_cancel(
        &mut self,
        key: String,
        member: String,
        ttl: i64,
        unit: TimeUnit,
        now: u64,
        kind: CollectionKind,
    ) -> (r: Result<Outcome, CommandError>)
        requires
            old(self).wf(),
        ensures
            final(self).wf(),
            final(self)@ == old(self)@.request(
                MemberId { key: key@, member: member@ },
                ttl,
                unit,
                now,
                kind,
            ),
            r == answer(old(self)@, ttl, kind),
    {
        match Request::of(ttl) {
            Request::Cancel => {
                let status = self.cancel(key.as_str(), member.as_str());
                Ok(Outcome { status, removal: None, start_reaper: false })
            },
            Request::ExpireNow => {
                match self.expire_now(key.as_str(), member.as_str(), kind) {
                    Ok(removal) => Ok(
                        Outcome { status: Status::Acted, removal, start_reaper: false },
                    ),
                    Err(e) => Err(e),
                }
            },
            Request::Schedule => {
                let done = self.schedule(key, member, ttl, unit, now);
                Ok(Outcome { status: Status::Acted, removal: None, start_reaper: done.start_reaper })
            },
        }
    }

    /// Runs one cycle of the reaper at `now`: takes in what was queued, and
    /// returns, batched by collection, the members that are due and
    /// confirmed. The host removes each of them from the data store.
    pub fn cycle(&mut self, now: u64) -> (batches: Vec<Batch>)
        requires
            old(self).wf(),
        ensures
            final(self).wf(),
            final(self)@ == old(self)@.cycle(now),
            batched(batches@) == old(self)@.due(now),
            batches_distinct(batches@),
    {
        drain(&mut self.queue, &mut self.heap);
        reap(&mut self.heap, &mut self.index, now)
    }
}

} // verus!

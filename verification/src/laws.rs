//! What holds of the engine across calls, proved over its model.

use crate::command::Status;
use crate::engine::{answer, EngineView};
use crate::member::{MemberId, Pending};
use crate::store::{removal_of, CollectionKind};
use crate::ttl::{due_at, TimeUnit};
use vstd::multiset::axiom_filter_count;
use vstd::prelude::*;
use vstd::seq_lib::{to_multiset_build, to_multiset_contains};

verus! {

/// The kinds of collection whose members can be removed.
pub open spec fn has_members(kind: CollectionKind) -> bool {
    kind == CollectionKind::Hash || kind == CollectionKind::PlainSet || kind
        == CollectionKind::SortedSet
}

/// A due-time is an instant of its own: it fits the type that holds it for
/// every clock reading and every positive time-to-live.
pub proof fn lemma_due_time_fits(now: u64, ttl: i64, unit: TimeUnit)
    requires
        ttl > 0,
    ensures
        now < due_at(now, ttl, unit) <= u128::MAX,
{
    match unit {
        TimeUnit::Seconds => {},
        TimeUnit::Milliseconds => {},
    }
}

/// A cycle confirms a member only when the due-time that the index holds
/// for it has come: no member is handed out for removal early, and none
/// that the index does not hold.
pub proof fn law_never_before_due(s: EngineView, id: MemberId, at: u64)
    requires
        s.due(at).contains(id),
    ensures
        s.due_times.contains_key(id),
        s.due_times[id] <= at,
{
}

/// A member scheduled with a positive time-to-live has its expiration at
/// once, due exactly that long after the call. While the queue had room for
/// its entry, a cycle hands it out for removal if and only if the time-to-live
/// has passed, and a cycle that comes too early keeps the entry for a
/// later one.
pub proof fn law_expiry_correctness(
    s: EngineView,
    id: MemberId,
    now: u64,
    ttl: i64,
    unit: TimeUnit,
    early: u64,
    at: u64,
)
    requires
        ttl > 0,
        s.has_room(),
    ensures
        ({
            let due = due_at(now, ttl, unit);
            let after = s.schedule(id, due as u128);
            &&& after.due_times.contains_key(id) && after.due_times[id] == due
            &&& after.due(at).contains(id) <==> due <= at
            &&& due <= at ==> !after.cycle(at).due_times.contains_key(id)
            &&& early < due ==> after.cycle(early).due_times.contains_key(id) && (after.cycle(
                early,
            ).due(at).contains(id) <==> due <= at)
        }),
{
    broadcast use axiom_filter_count;

    lemma_due_time_fits(now, ttl, unit);
    let due = due_at(now, ttl, unit) as u128;
    let after = s.schedule(id, due);
    let entry = Pending { id, due };
    to_multiset_build(s.queued, entry);
    assert(after.pending().count(entry) > 0);
    if early < due {
        let later = after.cycle(early);
        assert(later.queued.to_multiset().count(entry) == 0) by {
            to_multiset_contains(later.queued, entry);
        }
        assert(later.held.count(entry) == after.pending().count(entry));
        assert(later.pending().count(entry) > 0);
    }
}

/// Override wins: of two time-to-lives scheduled for one member the second
/// alone decides. The entry left by the first is stale, so the member is
/// handed out if and only if the second due-time has come, be it sooner or
/// later than the first.
pub proof fn law_override_wins(s: EngineView, id: MemberId, first: u128, second: u128, at: u64)
    requires
        s.schedule(id, first).has_room(),
    ensures
        s.schedule(id, first).schedule(id, second).due_times[id] == second,
        s.schedule(id, first).schedule(id, second).due(at).contains(id) <==> second <= at,
{
    let once = s.schedule(id, first);
    let twice = once.schedule(id, second);
    to_multiset_build(once.queued, Pending { id, due: second });
    assert(twice.pending().count(Pending { id, due: second }) > 0);
}

/// Cancellation suppresses: once a member's expiration is cancelled, no
/// cycle hands it out, however long after and whatever is still pending
/// for it.
pub proof fn law_cancel_suppresses(s: EngineView, id: MemberId, due: u128, at: u64)
    ensures
        !s.schedule(id, due).cancel(id).due_times.contains_key(id),
        !s.schedule(id, due).cancel(id).due(at).contains(id),
        !s.schedule(id, due).cancel(id).cycle(at).due_times.contains_key(id),
{
}

/// Immediate removal: a member removed at once from a collection that may
/// hold it has no expiration left, and no later cycle hands it out a second
/// time.
pub proof fn law_immediate_removal(s: EngineView, id: MemberId, kind: CollectionKind, at: u64)
    requires
        kind.supported(),
    ensures
        !s.expire_now(id, kind).due_times.contains_key(id),
        !s.expire_now(id, kind).due(at).contains(id),
        answer(s, 0, kind) is Ok,
        has_members(kind) ==> answer(s, 0, kind)->Ok_0.removal is Some,
{
}

/// Cancelling, or removing at once, a member that has no expiration changes
/// nothing and is no error. Cancelling answers that no expiration is active.
pub proof fn law_absent_member_is_untouched(
    s: EngineView,
    id: MemberId,
    ttl: i64,
    unit: TimeUnit,
    now: u64,
    kind: CollectionKind,
)
    requires
        !s.due_times.contains_key(id),
        ttl <= 0,
        kind.supported(),
    ensures
        s.request(id, ttl, unit, now, kind) == s,
        answer(s, ttl, kind) is Ok,
        ttl < 0 ==> answer(s, ttl, kind)->Ok_0.status == Status::NoActiveExpiration,
{
    assert(s.due_times.remove(id) =~= s.due_times);
}

/// A confirmed member leaves the index with the cycle that hands it out, so
/// it is handed out once: a second cycle finds nothing for it.
pub proof fn law_handed_out_once(s: EngineView, id: MemberId, at: u64, later: u64)
    requires
        s.due(at).contains(id),
    ensures
        !s.cycle(at).due_times.contains_key(id),
        !s.cycle(at).due(later).contains(id),
{
}

/// Members do not interfere: whether a cycle hands a member out is not
/// changed by scheduling or cancelling another member, nor by removing
/// another at once.
pub proof fn law_members_are_independent(
    s: EngineView,
    id: MemberId,
    other: MemberId,
    due: u128,
    kind: CollectionKind,
    at: u64,
)
    requires
        other != id,
    ensures
        s.schedule(other, due).due(at).contains(id) == s.due(at).contains(id),
        s.cancel(other).due(at).contains(id) == s.due(at).contains(id),
        s.expire_now(other, kind).due(at).contains(id) == s.due(at).contains(id),
        s.schedule(other, due).due_times.get(id) == s.due_times.get(id),
        s.cancel(other).due_times.get(id) == s.due_times.get(id),
{
    if s.due_times.contains_key(id) {
        let mine = Pending { id, due: s.due_times[id] };
        to_multiset_build(s.queued, Pending { id: other, due });
        assert(s.schedule(other, due).pending().count(mine) == s.pending().count(mine));
    }
}

/// A cycle that comes before a member is due leaves it as it was: its
/// expiration stays, and what later cycles do with it is unchanged.
pub proof fn law_early_cycle_changes_nothing(s: EngineView, id: MemberId, early: u64, at: u64)
    requires
        s.due_times.contains_key(id),
        early < s.due_times[id],
    ensures
        !s.due(early).contains(id),
        s.cycle(early).due_times.get(id) == s.due_times.get(id),
        s.cycle(early).due(at).contains(id) == s.due(at).contains(id),
{
    broadcast use axiom_filter_count;

    let mine = Pending { id, due: s.due_times[id] };
    let after = s.cycle(early);
    assert(after.queued.to_multiset().count(mine) == 0) by {
        to_multiset_contains(after.queued, mine);
    }
    assert(after.pending().count(mine) == s.pending().count(mine));
}

/// Every kind of collection that has members is served alike: each has a
/// removal of its own, and a request changes the engine and is answered with
/// the same status whichever of them the key holds.
pub proof fn law_kinds_served_alike(
    s: EngineView,
    id: MemberId,
    ttl: i64,
    unit: TimeUnit,
    now: u64,
    one: CollectionKind,
    other: CollectionKind,
)
    requires
        has_members(one),
        has_members(other),
    ensures
        removal_of(one) is Some,
        one != other ==> removal_of(one) != removal_of(other),
        s.request(id, ttl, unit, now, one) == s.request(id, ttl, unit, now, other),
        answer(s, ttl, one) is Ok,
        answer(s, ttl, one)->Ok_0.status == answer(s, ttl, other)->Ok_0.status,
        answer(s, ttl, one)->Ok_0.start_reaper == answer(s, ttl, other)->Ok_0.start_reaper,
{
}

} // verus!

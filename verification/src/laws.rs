//! Laws the engine obeys across calls: counting over runs of joins,
//! idempotence of bootstrap, unconditional re-anchoring on offline reports,
//! the allow-list leaving excluded members without effect, and back-to-back
//! dispatches composing as whole transitions.

use vstd::prelude::*;

use crate::counts::{Approximation, CounterState, FetchError};
use crate::handler::{
    Classification, Handler, MemberEvent, OnlineStatus, Outcome, dispatch_step, event_member,
    event_needs_fetch, join_class, join_step, presence_class, presence_step, ready_step,
    same_config,
};

verus! {

/// The counters after a run of member-join transitions, each fed the next
/// approximation of the sequence.
pub open spec fn join_all(s: CounterState, approxs: Seq<Approximation>) -> CounterState
    decreases approxs.len(),
{
    if approxs.len() == 0 {
        s
    } else {
        join_step(join_all(s, approxs.drop_last()), approxs.last())
    }
}

/// The induction behind the law on runs of joins: besides the count itself,
/// the last fetched total is carried along as a bound on the tracked total.
proof fn lemma_increasing_joins_count_aux(s: CounterState, approxs: Seq<Approximation>)
    requires
        approxs.len() > 0 ==> approxs[0].total > s.total,
        forall|i: int| 0 <= i < approxs.len() - 1 ==> #[trigger] approxs[i].total < approxs[i + 1].total,
    ensures
        join_all(s, approxs).total == s.total + approxs.len(),
        approxs.len() > 0 ==> approxs.last().total >= s.total + approxs.len(),
        forall|i: int| 0 <= i < approxs.len() ==> join_class(
            join_all(s, #[trigger] approxs.take(i)),
            approxs[i],
        ) == Classification::GenuineJoin,
    decreases approxs.len(),
{
    if approxs.len() == 0 {
        return;
    }
    let prefix = approxs.drop_last();
    let last = approxs.last();
    lemma_increasing_joins_count_aux(s, prefix);
    let run = join_all(s, prefix);
    if approxs.len() == 1 {
        assert(last.total > run.total);
    } else {
        assert(prefix.last() == approxs[approxs.len() - 2]);
        assert(prefix.last().total < last.total);
        assert(last.total > run.total);
    }
    assert forall|i: int| 0 <= i < approxs.len() implies join_class(
        join_all(s, #[trigger] approxs.take(i)),
        approxs[i],
    ) == Classification::GenuineJoin by {
        if i < approxs.len() - 1 {
            assert(approxs.take(i) =~= prefix.take(i));
            assert(approxs[i] == prefix[i]);
        } else {
            assert(approxs.take(i) =~= prefix);
        }
    }
}

/// Law: over a run of join events whose fetched totals strictly increase,
/// starting above the tracked total, every event classifies as a genuine join
/// and the tracked total ends at the starting total plus the number of joins.
///
/// The starting total is what bootstrap anchored; the first fetched total
/// must exceed it, or the first join would itself be read as a hidden leave.
pub proof fn lemma_increasing_joins_count(s: CounterState, approxs: Seq<Approximation>)
    requires
        approxs.len() > 0 ==> approxs[0].total > s.total,
        forall|i: int| 0 <= i < approxs.len() - 1 ==> #[trigger] approxs[i].total < approxs[i + 1].total,
    ensures
        join_all(s, approxs).total == s.total + approxs.len(),
        forall|i: int| 0 <= i < approxs.len() ==> join_class(
            join_all(s, #[trigger] approxs.take(i)),
            approxs[i],
        ) == Classification::GenuineJoin,
{
    lemma_increasing_joins_count_aux(s, approxs);
}

/// Law: bootstrap is idempotent — anchoring the counters a second time from
/// the same approximation leaves exactly the state of anchoring once.
pub proof fn lemma_bootstrap_idempotent(s: CounterState, a: Approximation)
    ensures
        ready_step(ready_step(s, a), a) == ready_step(s, a),
{
}

/// Law: a presence change to offline re-anchors the online counter to the
/// fresh approximation, whichever of the two verdicts — genuinely offline or
/// invisibility — is reached.
pub proof fn lemma_offline_reanchors(s: CounterState, a: Approximation)
    ensures
        presence_step(s, a).online == a.online,
        presence_class(s, OnlineStatus::Offline, a) == Classification::GenuineOffline
            || presence_class(s, OnlineStatus::Offline, a)
            == Classification::InvisibilityDetected,
{
}

/// Law: with a non-empty allow-list, a join or presence event for a member
/// outside the list needs no approximation fetch, changes nothing, and is
/// reported as ignored. (A leave event stands apart: it consults no
/// allow-list and no approximation.)
pub proof fn lemma_excluded_member_ignored(
    h: Handler,
    guild_id: u64,
    event: MemberEvent,
    fetch: Result<Approximation, FetchError>,
)
    requires
        h.include_only@.len() > 0,
        !h.include_only@.contains(event_member(event)),
        !(event is Left),
    ensures
        !event_needs_fetch(h, guild_id, event),
        dispatch_step(h, guild_id, event, fetch) == (h.users, Outcome::Ignored),
{
}

/// A handler with the given counters in place of its own.
pub open spec fn with_users(h: Handler, s: CounterState) -> Handler {
    Handler { users: s, ..h }
}

/// Law: two events dispatched back-to-back compose as whole transitions. If
/// a first call left the counters `mid.users` and a second call, made on that
/// state, left `post.users`, then `post.users` is exactly the second full
/// transition applied to the first full transition's result — never a mix of
/// partial writes.
pub proof fn lemma_back_to_back(
    pre: Handler,
    mid: Handler,
    post: Handler,
    guild_id: u64,
    e1: MemberEvent,
    f1: Result<Approximation, FetchError>,
    e2: MemberEvent,
    f2: Result<Approximation, FetchError>,
)
    requires
        same_config(pre, mid),
        same_config(mid, post),
        mid.users == dispatch_step(pre, guild_id, e1, f1).0,
        post.users == dispatch_step(mid, guild_id, e2, f2).0,
    ensures
        post.users == dispatch_step(
            with_users(pre, dispatch_step(pre, guild_id, e1, f1).0),
            guild_id,
            e2,
            f2,
        ).0,
{
    let w = with_users(pre, dispatch_step(pre, guild_id, e1, f1).0);
    assert(w.users == mid.users);
    assert(w.include_only@ == mid.include_only@);
    assert(dispatch_step(mid, guild_id, e2, f2).0 == dispatch_step(w, guild_id, e2, f2).0);
}

} // verus!

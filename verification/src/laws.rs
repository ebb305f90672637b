//! What holds of the pool as a whole, proved from the transitions that the
//! operations are specified by.

use vstd::prelude::*;
use crate::acquire::reused_after;
use crate::connector::ConnectionConnector;
use crate::machine::{purges, Step};
use crate::state::PoolState;

verus! {

/// An enabled step keeps the invariant.
pub proof fn lemma_step_keeps_invariant<E: ConnectionConnector>(s: PoolState<E>, step: Step<E>)
    requires
        s.wf(),
        s.enabled(step),
    ensures
        s.step(step).wf(),
        s.step(step).same_bounds(s),
{
}

/// A run of enabled steps keeps the invariant.
pub proof fn lemma_run_keeps_invariant<E: ConnectionConnector>(
    s: PoolState<E>,
    steps: Seq<Step<E>>,
)
    requires
        s.wf(),
        s.runnable(steps),
    ensures
        s.run(steps).wf(),
        s.run(steps).same_bounds(s),
    decreases steps.len(),
{
    if steps.len() > 0 {
        lemma_step_keeps_invariant(s, steps[0]);
        lemma_run_keeps_invariant(s.step(steps[0]), steps.skip(1));
    }
}

/// The bound: in every reachable state the live count is at most the
/// maximum, and it is the number of idle connections plus the number
/// checked out.
pub proof fn lemma_live_count_is_bounded<E: ConnectionConnector>(s: PoolState<E>)
    requires
        s.reachable(),
    ensures
        s.wf(),
        s.live <= s.max,
        s.idle.len() + s.outstanding() == s.live,
{
    let (max, min, idle_timeout, steps) = choose|
        max: u8,
        min: u8,
        idle_timeout: u64,
        steps: Seq<Step<E>>,
    |
        {
            &&& min > 0
            &&& max >= min
            &&& #[trigger] PoolState::<E>::initial(max, min, idle_timeout).runnable(steps)
            &&& s == PoolState::<E>::initial(max, min, idle_timeout).run(steps)
        };
    lemma_run_keeps_invariant(PoolState::<E>::initial(max, min, idle_timeout), steps);
}

/// The invariant and reachability are the same thing: the pool can be in a
/// state exactly if the state satisfies the invariant.
pub proof fn lemma_reachable_iff_invariant<E: ConnectionConnector>(s: PoolState<E>)
    ensures
        s.reachable() <==> s.wf(),
{
    if s.reachable() {
        lemma_live_count_is_bounded(s);
    }
    if s.wf() {
        s.lemma_invariant_is_reachable();
    }
}

/// Every step moves at most one connection, between the queue, the callers
/// and nothing: the counts change by one or not at all, as the step says.
pub proof fn lemma_step_moves_one_connection<E: ConnectionConnector>(
    s: PoolState<E>,
    step: Step<E>,
)
    requires
        s.wf(),
        s.enabled(step),
    ensures
        match step {
            Step::Reuse => {
                &&& s.step(step).live == s.live
                &&& s.step(step).idle.len() == s.idle.len() - 1
                &&& s.step(step).outstanding() == s.outstanding() + 1
            },
            Step::Purge => {
                &&& s.step(step).live == s.live - 1
                &&& s.step(step).idle.len() == s.idle.len() - 1
                &&& s.step(step).outstanding() == s.outstanding()
            },
            Step::Requeue => {
                &&& s.step(step).live == s.live
                &&& s.step(step).idle.len() == s.idle.len()
                &&& s.step(step).outstanding() == s.outstanding()
            },
            Step::Create => {
                &&& s.step(step).live == s.live + 1
                &&& s.step(step).idle.len() == s.idle.len()
                &&& s.step(step).outstanding() == s.outstanding() + 1
            },
            Step::Release { .. } => {
                &&& s.step(step).live == s.live
                &&& s.step(step).idle.len() == s.idle.len() + 1
                &&& s.step(step).outstanding() == s.outstanding() - 1
            },
        },
{
}

/// Every pass over the pool is a run of the machine: destroying `k` heads
/// and then taking one more enabled step, which is how an acquisition or a
/// reaper pass ends, leads from a reachable state to a reachable state.
pub proof fn lemma_pass_is_a_run<E: ConnectionConnector>(s: PoolState<E>, k: nat, last: Step<E>)
    requires
        k <= s.idle.len() <= s.live,
        s.purged(k).enabled(last),
    ensures
        s.runnable(purges::<E>(k).push(last)),
        s.run(purges::<E>(k).push(last)) == s.purged(k).step(last),
        s.reachable() ==> s.purged(k).reachable() && s.purged(k).step(last).reachable(),
{
    let one = seq![last];
    s.lemma_purging_is_a_run(k);
    s.purged(k).lemma_step_is_a_run(last);
    s.lemma_run_append(purges::<E>(k), one);
    assert(purges::<E>(k) + one =~= purges::<E>(k).push(last));
    if s.reachable() {
        s.lemma_run_stays_reachable(purges::<E>(k));
        s.lemma_run_stays_reachable(purges::<E>(k).push(last));
    }
}

/// First in, first out: a released connection queues behind every entry
/// that was idle before it, and none of those entries changes.
pub proof fn lemma_release_queues_at_tail<E: ConnectionConnector>(
    s: PoolState<E>,
    conn: E::Conn,
    now: u64,
)
    ensures
        s.returned(conn, now).idle.len() == s.idle.len() + 1,
        s.returned(conn, now).idle.last().conn == conn,
        s.returned(conn, now).idle.last().idle_since == now,
        forall|i: int| 0 <= i < s.idle.len() ==> s.returned(conn, now).idle[i] == s.idle[i],
        s.returned(conn, now).live == s.live,
{
}

/// Reuse: when nothing else is idle, a released connection is the one the
/// next acquisition hands out if it reuses at all, and handing it out
/// leaves the pool as it was before the release.
pub proof fn lemma_released_connection_is_reused_next<E: ConnectionConnector>(
    s: PoolState<E>,
    conn: E::Conn,
    now: u64,
    k: nat,
    after: PoolState<E>,
    handed: Option<E::Conn>,
)
    requires
        s.wf(),
        s.idle.len() == 0,
        reused_after(s.returned(conn, now), k, after, handed),
    ensures
        k == 0,
        handed == Some(conn),
        after == s,
{
    let r = s.returned(conn, now);
    r.lemma_purged_none();
    assert(r.idle.skip(1) =~= s.idle);
}

/// Purge: destroying the head takes exactly one connection out of the live
/// count and exactly the head out of the queue, and hands it to nobody:
/// the number of connections checked out stays the same.
pub proof fn lemma_purge_takes_exactly_one<E: ConnectionConnector>(s: PoolState<E>)
    requires
        s.wf(),
        s.idle.len() > 0,
    ensures
        s.head_purged().live == s.live - 1,
        s.head_purged().idle == s.idle.skip(1),
        s.head_purged().idle.len() == s.idle.len() - 1,
        s.head_purged().outstanding() == s.outstanding(),
{
}

/// Release happens exactly once: releasing a handle queues one entry if
/// the handle holds a connection, and releasing the emptied handle again,
/// at whatever time, queues nothing.
pub proof fn lemma_release_exactly_once<E: ConnectionConnector>(
    s: PoolState<E>,
    held: Option<E::Conn>,
    first: u64,
    second: u64,
)
    ensures
        held is Some ==> s.after_release(held, first).idle.len() == s.idle.len() + 1,
        held is None ==> s.after_release(held, first) == s,
        s.after_release(held, first).after_release(None, second) == s.after_release(held, first),
{
}

/// Staleness is permanent: an entry that has waited out the timeout stays
/// stale at every later time, so a queue that is all stale stays all stale
/// for as long as nothing is released into it.
pub proof fn lemma_stale_stays_stale<E: ConnectionConnector>(s: PoolState<E>, now: u64, later: u64)
    requires
        s.all_stale(now),
        now <= later,
    ensures
        s.all_stale(later),
{
    assert forall|i: int| 0 <= i < s.idle.len() implies !(#[trigger] s.idle[i]).fresh_at(
        later,
        s.idle_timeout,
    ) by {
        assert(!s.idle[i].fresh_at(now, s.idle_timeout));
    }
}

/// A queue is all stale once a full timeout has passed since the last
/// release into it.
pub proof fn lemma_all_stale_after_timeout<E: ConnectionConnector>(s: PoolState<E>, now: u64)
    requires
        forall|i: int|
            0 <= i < s.idle.len() ==> (#[trigger] s.idle[i]).idle_since + s.idle_timeout <= now,
    ensures
        s.all_stale(now),
{
}

/// Trimming: destroying the connections that stand above the minimum
/// leaves the live count at the minimum, and with no more than `min`
/// connections checked out the queue holds enough entries to do so.
pub proof fn lemma_trim_reaches_minimum<E: ConnectionConnector>(s: PoolState<E>)
    requires
        s.wf(),
        s.live >= s.min,
        s.outstanding() <= s.min,
    ensures
        s.excess() <= s.idle.len(),
        s.purged(s.excess()).live == s.min,
        s.purged(s.excess()).wf(),
{
}

} // verus!

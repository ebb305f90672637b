//! The pool as a mathematical value, and the steps it can take.
//!
//! Every executable operation of the pool is specified as one of the
//! transitions below, applied to the pool's view.

use vstd::prelude::*;
use crate::connector::ConnectionConnector;
use crate::entry::PoolEntry;

verus! {

/// The abstract state of a pool.
///
/// `live` counts every connection that exists: those waiting in `idle` and
/// those checked out. `idle` is ordered from the entry that has waited
/// longest (index 0, the head) to the one released last.
pub struct PoolState<E: ConnectionConnector> {
    pub max: nat,
    pub min: nat,
    pub idle_timeout: u64,
    pub live: nat,
    pub idle: Seq<PoolEntry<E>>,
}

impl<E: ConnectionConnector> PoolState<E> {
    /// The invariant: the bounds are sane, the live count never passes
    /// `max`, and every idle connection is counted. It holds of exactly the
    /// states a pool can reach.
    pub open spec fn wf(self) -> bool {
        &&& 1 <= self.min <= self.max <= u8::MAX
        &&& self.idle.len() <= self.live <= self.max
    }

    /// The number of connections checked out.
    pub open spec fn outstanding(self) -> nat {
        (self.live - self.idle.len()) as nat
    }

    /// A pool that has not created any connection yet.
    pub open spec fn initial(max: u8, min: u8, idle_timeout: u64) -> Self {
        PoolState { max: max as nat, min: min as nat, idle_timeout, live: 0, idle: Seq::empty() }
    }

    /// Same pool, same bounds: only `live` and `idle` may differ.
    pub open spec fn same_bounds(self, other: Self) -> bool {
        &&& self.max == other.max
        &&& self.min == other.min
        &&& self.idle_timeout == other.idle_timeout
    }

    /// The `k` entries at the head of the queue are destroyed.
    pub open spec fn purged(self, k: nat) -> Self
        recommends
            k <= self.idle.len() <= self.live,
    {
        PoolState { live: (self.live - k) as nat, idle: self.idle.skip(k as int), ..self }
    }

    /// The head of the queue is handed to a caller. It stays counted.
    pub open spec fn head_leased(self) -> Self
        recommends
            self.idle.len() > 0,
    {
        PoolState { idle: self.idle.skip(1), ..self }
    }

    /// The head of the queue is destroyed.
    pub open spec fn head_purged(self) -> Self
        recommends
            0 < self.idle.len() <= self.live,
    {
        self.purged(1)
    }

    /// The head of the queue moves to the tail, otherwise unchanged.
    pub open spec fn head_requeued(self) -> Self
        recommends
            self.idle.len() > 0,
    {
        PoolState { idle: self.idle.skip(1).push(self.idle[0]), ..self }
    }

    /// A newly created connection is counted. It is checked out at once, so
    /// the queue does not change.
    pub open spec fn grown(self) -> Self {
        PoolState { live: self.live + 1, ..self }
    }

    /// A checked-out connection comes back at time `now` and joins the tail.
    pub open spec fn returned(self, conn: E::Conn, now: u64) -> Self {
        PoolState { idle: self.idle.push(PoolEntry { conn, idle_since: now }), ..self }
    }

    /// A handle is released at time `now`: the connection it still holds, if
    /// any, joins the tail; an empty handle changes nothing.
    pub open spec fn after_release(self, held: Option<E::Conn>, now: u64) -> Self {
        match held {
            Some(conn) => self.returned(conn, now),
            None => self,
        }
    }

    /// Every idle entry has been idle for at least the timeout at `now`.
    pub open spec fn all_stale(self, now: u64) -> bool {
        forall|i: int|
            0 <= i < self.idle.len() ==> !(#[trigger] self.idle[i]).fresh_at(
                now,
                self.idle_timeout,
            )
    }

    /// How many connections stand above the minimum.
    pub open spec fn excess(self) -> nat {
        if self.live > self.min {
            (self.live - self.min) as nat
        } else {
            0
        }
    }

    /// Destroying no entry changes nothing.
    pub proof fn lemma_purged_none(self)
        ensures
            self.purged(0) == self,
    {
        assert(self.idle.skip(0) =~= self.idle);
    }

    /// Destroying `k` entries and then the head is destroying `k + 1`, and
    /// the head met after `k` entries is the entry at index `k`.
    pub proof fn lemma_purged_next(self, k: nat)
        requires
            k < self.idle.len() <= self.live,
        ensures
            self.purged(k).head_purged() == self.purged(k + 1),
            self.purged(k).idle[0] == self.idle[k as int],
    {
        assert(self.idle.skip(k as int).skip(1) =~= self.idle.skip((k + 1) as int));
    }
}

} // verus!

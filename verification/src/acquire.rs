//! Acquisition: one pass over the pool on behalf of a caller who wants a
//! connection.
//!
//! A pass serves the queue from its head, destroying dead connections as
//! it meets them, and opens a new connection when nothing idle is left and
//! the pool may still grow. It never waits and asks the connector at most
//! once; when it comes back empty-handed it says whether waiting for a
//! release or asking again is the thing to do.

use vstd::prelude::*;
use crate::connector::ConnectionConnector;
use crate::lease::LiveConnection;
use crate::pool::GenericConnectionPool;
use crate::state::PoolState;

verus! {

/// How one acquisition pass ended.
pub enum Acquired<E: ConnectionConnector> {
    /// An idle connection passed its liveness check and is handed out.
    Reused(LiveConnection<E>),
    /// Nothing idle was usable; the connector opened a new connection.
    Created(LiveConnection<E>),
    /// Nothing idle was usable and the connector had nothing to give. The
    /// pool is below its maximum, so asking again may succeed.
    Unavailable,
    /// Every connection the pool may have is checked out. Only a release
    /// can help.
    Exhausted,
}

/// The queue lost its first `k` entries to failed liveness checks and the
/// next one was handed out.
pub open spec fn reused_after<E: ConnectionConnector>(
    before: PoolState<E>,
    k: nat,
    after: PoolState<E>,
    handed: Option<E::Conn>,
) -> bool {
    &&& k < before.idle.len()
    &&& after == before.purged(k).head_leased()
    &&& handed == Some(before.idle[k as int].conn)
}

impl<E: ConnectionConnector> GenericConnectionPool<E> {
    /// Makes one acquisition pass.
    ///
    /// Idle connections are tried in queue order. Each one that fails its
    /// liveness check is destroyed; the first that passes is handed out,
    /// and the entries behind it stay queued. If the queue runs out, the
    /// connector is asked once, provided the live count is below the
    /// maximum. The pass ends `Exhausted`, with the pool unchanged, exactly
    /// when it starts with `max` connections checked out.
    pub fn acquire(&mut self) -> (got: Acquired<E>)
        ensures
            final(self).wf(),
            got is Exhausted <==> old(self)@.outstanding() == old(self)@.max,
            match got {
                Acquired::Reused(lease) => reused_after(
                    old(self)@,
                    (old(self)@.live - final(self)@.live) as nat,
                    final(self)@,
                    lease@,
                ),
                Acquired::Created(lease) => {
                    &&& final(self)@ == old(self)@.purged(old(self)@.idle.len()).grown()
                    &&& lease@ is Some
                },
                Acquired::Unavailable => {
                    &&& final(self)@ == old(self)@.purged(old(self)@.idle.len())
                    &&& final(self)@.live < final(self)@.max
                },
                Acquired::Exhausted => final(self)@ == old(self)@,
            },
    {
        proof {
            use_type_invariant(&*self);
        }
        let ghost start = self@;
        let ghost mut k: nat = 0;
        proof {
            start.lemma_purged_none();
        }
        while self.idle_connections() > 0
            invariant
                self.wf(),
                start == old(self)@,
                start.wf(),
                k <= start.idle.len(),
                self@ == start.purged(k),
            decreases self@.idle.len(),
        {
            proof {
                start.lemma_purged_next(k);
            }
            let alive = self.head_is_alive();
            match self.settle_head(alive) {
                Some(lease) => {
                    return Acquired::Reused(lease);
                },
                None => {
                    proof {
                        k = k + 1;
                    }
                },
            }
        }
        if self.may_create() {
            let made = self.connect_once();
            match self.adopt(made) {
                Some(lease) => Acquired::Created(lease),
                None => Acquired::Unavailable,
            }
        } else {
            Acquired::Exhausted
        }
    }

    /// Makes one acquisition pass and returns the connection if it got one.
    ///
    /// `None` means that the caller has to come back: after a release if
    /// the pool is at its maximum, at once otherwise. Either way every idle
    /// connection has been destroyed on the way, so the queue is empty.
    pub fn get_connection(&mut self) -> (lease: Option<LiveConnection<E>>)
        ensures
            final(self).wf(),
            old(self)@.outstanding() == old(self)@.max ==> lease is None,
            match lease {
                Some(l) => {
                    ||| reused_after(
                        old(self)@,
                        (old(self)@.live - final(self)@.live) as nat,
                        final(self)@,
                        l@,
                    )
                    ||| {
                        &&& final(self)@ == old(self)@.purged(old(self)@.idle.len()).grown()
                        &&& l@ is Some
                    }
                },
                None => final(self)@ == old(self)@.purged(old(self)@.idle.len()),
            },
    {
        match self.acquire() {
            Acquired::Reused(lease) => Some(lease),
            Acquired::Created(lease) => Some(lease),
            Acquired::Unavailable => None,
            Acquired::Exhausted => {
                proof {
                    old(self)@.lemma_purged_none();
                }
                None
            },
        }
    }
}

} // verus!

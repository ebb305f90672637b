//! One idle connection, with the time at which it became idle.

use vstd::prelude::*;
use crate::connector::ConnectionConnector;

verus! {

/// An idle connection waiting in the pool's queue. Times are milliseconds on
/// a clock that never runs backwards; the pool is told the time by its owner.
pub struct PoolEntry<E: ConnectionConnector> {
    pub conn: E::Conn,
    pub idle_since: u64,
}

impl<E: ConnectionConnector> PoolEntry<E> {
    /// How long the entry has been idle at time `now`. A reading taken before
    /// the entry became idle counts as no time at all.
    pub open spec fn idle_for(self, now: u64) -> nat {
        if now >= self.idle_since {
            (now - self.idle_since) as nat
        } else {
            0
        }
    }

    /// The entry has been idle for less than `timeout` at time `now`.
    pub open spec fn fresh_at(self, now: u64, timeout: u64) -> bool {
        self.idle_for(now) < timeout
    }

    /// Computes `fresh_at`.
    pub fn is_fresh(&self, now: u64, timeout: u64) -> (fresh: bool)
        ensures
            fresh == self.fresh_at(now, timeout),
    {
        if now >= self.idle_since {
            now - self.idle_since < timeout
        } else {
            0 < timeout
        }
    }
}

} // verus!

//! Maintenance: one pass of the reaper, which trims the pool toward its
//! minimum and evicts what is dead or has been idle too long.
//!
//! A pass inspects the head of the queue for as long as the live count is
//! above the minimum. It stops at the first head that is alive and fresh,
//! which bounds the work of a pass, and it stops when the queue runs dry.
//! It never waits: a pass that runs dry above the minimum says so and
//! leaves the waiting to its caller.

use vstd::prelude::*;
use crate::connector::ConnectionConnector;
use crate::pool::GenericConnectionPool;

verus! {

/// Why a reaper pass stopped.
#[derive(Clone, Copy, PartialEq, Eq, Structural, Debug)]
pub enum ReapEnd {
    /// The live count is at or below the minimum: nothing more to trim.
    Trimmed,
    /// A head was alive and fresh. It went back to the tail of the queue.
    Requeued,
    /// The queue is empty while the live count is above the minimum: every
    /// connection that is left is checked out.
    Starved,
}

/// The outcome of one reaper pass.
#[derive(Clone, Copy, Debug)]
pub struct Reaped {
    /// How many connections the pass destroyed.
    pub destroyed: u8,
    /// Why the pass stopped.
    pub end: ReapEnd,
}

impl<E: ConnectionConnector> GenericConnectionPool<E> {
    /// Makes one reaper pass at time `now`.
    ///
    /// The pass destroys the first `destroyed` entries of the queue, each of
    /// them dead or idle for the timeout or longer, and never takes the live
    /// count below the minimum. It ends `Requeued` only at an entry that has
    /// been idle for less than the timeout; that entry moves to the tail.
    /// When every idle entry is stale the pass destroys as many as stand
    /// above the minimum, so with no more than `min` connections checked
    /// out the live count ends at the minimum.
    pub fn reap(&mut self, now: u64) -> (report: Reaped)
        ensures
            final(self).wf(),
            report.destroyed == old(self)@.live - final(self)@.live,
            report.destroyed <= old(self)@.idle.len(),
            report.destroyed <= old(self)@.excess(),
            old(self)@.live >= old(self)@.min ==> final(self)@.live >= final(self)@.min,
            match report.end {
                ReapEnd::Trimmed => {
                    &&& final(self)@ == old(self)@.purged(report.destroyed as nat)
                    &&& final(self)@.live <= final(self)@.min
                },
                ReapEnd::Requeued => {
                    &&& report.destroyed < old(self)@.idle.len()
                    &&& final(self)@ == old(self)@.purged(report.destroyed as nat).head_requeued()
                    &&& old(self)@.idle[report.destroyed as int].fresh_at(
                        now,
                        old(self)@.idle_timeout,
                    )
                    &&& final(self)@.live > final(self)@.min
                },
                ReapEnd::Starved => {
                    &&& final(self)@ == old(self)@.purged(old(self)@.idle.len())
                    &&& final(self)@.live > final(self)@.min
                },
            },
            old(self)@.all_stale(now) ==> report.end != ReapEnd::Requeued,
            old(self)@.all_stale(now) && old(self)@.outstanding() <= old(self)@.min
                ==> final(self)@.live == old(self)@.live - old(self)@.excess(),
    {
        proof {
            use_type_invariant(&*self);
        }
        let ghost start = self@;
        let mut destroyed: u8 = 0;
        proof {
            start.lemma_purged_none();
        }
        while self.live_connections() > self.min_connections()
            invariant
                self.wf(),
                start == old(self)@,
                start.wf(),
                destroyed <= start.idle.len(),
                destroyed <= start.excess(),
                self@ == start.purged(destroyed as nat),
            decreases self@.live,
        {
            if self.idle_connections() == 0 {
                return Reaped { destroyed, end: ReapEnd::Starved };
            }
            proof {
                start.lemma_purged_next(destroyed as nat);
            }
            let alive = self.head_is_alive();
            if self.reap_head(alive, now) {
                return Reaped { destroyed, end: ReapEnd::Requeued };
            }
            destroyed = destroyed + 1;
        }
        Reaped { destroyed, end: ReapEnd::Trimmed }
    }
}

} // verus!

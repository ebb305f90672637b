//! The pool as a state machine: the atomic steps it can take and the states
//! it can reach.
//!
//! Every operation of the pool is a sequence of these steps. A step is
//! enabled only in states where the operation would take it, so a run of
//! enabled steps from the initial state is exactly a history the pool can
//! have.

use vstd::prelude::*;
use crate::connector::ConnectionConnector;
use crate::entry::PoolEntry;
use crate::state::PoolState;

verus! {

/// One atomic change of a pool's state.
pub enum Step<E: ConnectionConnector> {
    /// The head of the queue passes its liveness check and is handed out.
    Reuse,
    /// The head of the queue is destroyed: dead when dequeued, or dead or
    /// stale when the reaper looked at it.
    Purge,
    /// The reaper found the head alive and fresh and put it at the tail.
    Requeue,
    /// The connector opened a connection, which is handed out.
    Create,
    /// A checked-out connection is released at time `now`.
    Release { conn: E::Conn, now: u64 },
}

impl<E: ConnectionConnector> PoolState<E> {
    /// Whether `step` can be taken in this state.
    pub open spec fn enabled(self, step: Step<E>) -> bool {
        match step {
            Step::Reuse => self.idle.len() > 0,
            Step::Purge => self.idle.len() > 0,
            Step::Requeue => self.idle.len() > 0,
            Step::Create => self.live < self.max,
            Step::Release { .. } => self.outstanding() > 0,
        }
    }

    /// The state after `step`.
    pub open spec fn step(self, step: Step<E>) -> Self {
        match step {
            Step::Reuse => self.head_leased(),
            Step::Purge => self.head_purged(),
            Step::Requeue => self.head_requeued(),
            Step::Create => self.grown(),
            Step::Release { conn, now } => self.returned(conn, now),
        }
    }

    /// Whether every step of `steps` is enabled when its turn comes.
    pub open spec fn runnable(self, steps: Seq<Step<E>>) -> bool
        decreases steps.len(),
    {
        if steps.len() == 0 {
            true
        } else {
            self.enabled(steps[0]) && self.step(steps[0]).runnable(steps.skip(1))
        }
    }

    /// The state after all of `steps`, taken in order.
    pub open spec fn run(self, steps: Seq<Step<E>>) -> Self
        decreases steps.len(),
    {
        if steps.len() == 0 {
            self
        } else {
            self.step(steps[0]).run(steps.skip(1))
        }
    }

    /// A state the pool can be in: the result of some run of enabled steps
    /// from an empty pool with sane bounds.
    pub open spec fn reachable(self) -> bool {
        exists|max: u8, min: u8, idle_timeout: u64, steps: Seq<Step<E>>|
            {
                &&& min > 0
                &&& max >= min
                &&& #[trigger] Self::initial(max, min, idle_timeout).runnable(steps)
                &&& self == Self::initial(max, min, idle_timeout).run(steps)
            }
    }

    /// A single enabled step is a run.
    pub proof fn lemma_step_is_a_run(self, step: Step<E>)
        requires
            self.enabled(step),
        ensures
            self.runnable(seq![step]),
            self.run(seq![step]) == self.step(step),
    {
        let one = seq![step];
        let none = one.skip(1);
        assert(none.len() == 0);
        assert(self.step(step).runnable(none));
        assert(self.step(step).run(none) == self.step(step));
    }

    /// Runs compose: a run followed by a run is the run of their
    /// concatenation.
    pub proof fn lemma_run_append(self, first: Seq<Step<E>>, then: Seq<Step<E>>)
        requires
            self.runnable(first),
            self.run(first).runnable(then),
        ensures
            self.runnable(first + then),
            self.run(first + then) == self.run(first).run(then),
        decreases first.len(),
    {
        if first.len() == 0 {
            assert(first + then =~= then);
        } else {
            assert((first + then)[0] == first[0]);
            assert((first + then).skip(1) =~= first.skip(1) + then);
            self.step(first[0]).lemma_run_append(first.skip(1), then);
        }
    }

    /// Destroying the first `k` entries of the queue is a run of `k` purges.
    pub proof fn lemma_purging_is_a_run(self, k: nat)
        requires
            k <= self.idle.len() <= self.live,
        ensures
            self.runnable(purges::<E>(k)),
            self.run(purges::<E>(k)) == self.purged(k),
        decreases k,
    {
        if k == 0 {
            self.lemma_purged_none();
        } else {
            let rest = (k - 1) as nat;
            assert(purges::<E>(k).skip(1) =~= purges::<E>(rest));
            assert(purges::<E>(k)[0] == Step::<E>::Purge);
            self.head_purged().lemma_purging_is_a_run(rest);
            assert(self.idle.skip(1).skip(rest as int) =~= self.idle.skip(k as int));
        }
    }

    /// Creating `k` connections is a run, for as long as there is room.
    pub proof fn lemma_creating_is_a_run(self, k: nat)
        requires
            self.live + k <= self.max,
        ensures
            self.runnable(creations::<E>(k)),
            self.run(creations::<E>(k)) == (PoolState { live: self.live + k, ..self }),
        decreases k,
    {
        if k > 0 {
            let rest = (k - 1) as nat;
            assert(creations::<E>(k).skip(1) =~= creations::<E>(rest));
            assert(creations::<E>(k)[0] == Step::<E>::Create);
            self.grown().lemma_creating_is_a_run(rest);
        }
    }

    /// Releasing checked-out connections is a run that appends them to the
    /// queue, for as long as there are connections checked out.
    pub proof fn lemma_releasing_is_a_run(self, entries: Seq<PoolEntry<E>>)
        requires
            self.idle.len() + entries.len() <= self.live,
        ensures
            self.runnable(releases(entries)),
            self.run(releases(entries)) == (PoolState { idle: self.idle + entries, ..self }),
        decreases entries.len(),
    {
        if entries.len() == 0 {
            assert(self.idle + entries =~= self.idle);
        } else {
            let first = entries[0];
            let rest = entries.skip(1);
            assert(releases(entries).skip(1) =~= releases(rest));
            let step = Step::<E>::Release { conn: first.conn, now: first.idle_since };
            assert(releases(entries)[0] == step);
            let next = self.returned(first.conn, first.idle_since);
            next.lemma_releasing_is_a_run(rest);
            assert(next.idle + rest =~= self.idle + entries);
        }
    }

    /// The invariant is exact: every state that satisfies it can be
    /// reached. Create every connection that is live, then release the ones
    /// that are idle.
    pub proof fn lemma_invariant_is_reachable(self)
        requires
            self.wf(),
        ensures
            self.reachable(),
    {
        let max = self.max as u8;
        let min = self.min as u8;
        let start = Self::initial(max, min, self.idle_timeout);
        let made = PoolState { live: self.live, ..start };
        start.lemma_creating_is_a_run(self.live);
        made.lemma_releasing_is_a_run(self.idle);
        start.lemma_run_append(creations::<E>(self.live), releases(self.idle));
        assert(made.idle + self.idle =~= self.idle);
        let steps = creations::<E>(self.live) + releases(self.idle);
        assert(start.runnable(steps));
        assert(self == start.run(steps));
    }

    /// A run of enabled steps from a reachable state ends in a reachable
    /// state.
    pub proof fn lemma_run_stays_reachable(self, steps: Seq<Step<E>>)
        requires
            self.reachable(),
            self.runnable(steps),
        ensures
            self.run(steps).reachable(),
    {
        let (max, min, idle_timeout, so_far) = choose|
            max: u8,
            min: u8,
            idle_timeout: u64,
            so_far: Seq<Step<E>>,
        |
            {
                &&& min > 0
                &&& max >= min
                &&& #[trigger] Self::initial(max, min, idle_timeout).runnable(so_far)
                &&& self == Self::initial(max, min, idle_timeout).run(so_far)
            };
        Self::initial(max, min, idle_timeout).lemma_run_append(so_far, steps);
    }
}

/// `k` purges in a row.
pub open spec fn purges<E: ConnectionConnector>(k: nat) -> Seq<Step<E>> {
    Seq::new(k, |i: int| Step::Purge)
}

/// `k` creations in a row.
pub open spec fn creations<E: ConnectionConnector>(k: nat) -> Seq<Step<E>> {
    Seq::new(k, |i: int| Step::Create)
}

/// The releases that queue `entries`, in order.
pub open spec fn releases<E: ConnectionConnector>(entries: Seq<PoolEntry<E>>) -> Seq<Step<E>> {
    Seq::new(
        entries.len(),
        |i: int| Step::Release { conn: entries[i].conn, now: entries[i].idle_since },
    )
}

} // verus!

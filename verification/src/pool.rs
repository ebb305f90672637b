//! The pool itself: its bookkeeping and the single steps that change it.
//!
//! Each step here is decided by values only. Where a step depends on what a
//! connection or the connector answered, the answer is a parameter, so the
//! step's contract says what happens for either answer.

use vstd::prelude::*;
use std::collections::VecDeque;
use crate::connector::{Connection, ConnectionConnector};
use crate::entry::PoolEntry;
use crate::lease::LiveConnection;
use crate::state::PoolState;

verus! {

/// A pool of at most `max` connections made by one connector.
pub struct GenericConnectionPool<E: ConnectionConnector> {
    connector: E,
    max: u8,
    min: u8,
    idle_timeout: u64,
    live: u8,
    idle: VecDeque<PoolEntry<E>>,
}

impl<E: ConnectionConnector> View for GenericConnectionPool<E> {
    type V = PoolState<E>;

    closed spec fn view(&self) -> PoolState<E> {
        PoolState {
            max: self.max as nat,
            min: self.min as nat,
            idle_timeout: self.idle_timeout,
            live: self.live as nat,
            idle: self.idle@,
        }
    }
}

impl<E: ConnectionConnector> GenericConnectionPool<E> {
    /// The pool's invariant, stated on its view. It holds of every pool at
    /// every moment: no operation needs it as a precondition.
    #[verifier::type_invariant]
    pub open spec fn wf(&self) -> bool {
        self@.wf()
    }

    /// Creates an empty pool. No connection is opened until one is asked
    /// for. `idle_timeout` is in milliseconds.
    pub fn new(max: u8, min: u8, idle_timeout: u64, connector: E) -> (pool: Self)
        requires
            min > 0,
            max >= min,
        ensures
            pool.wf(),
            pool@ == PoolState::<E>::initial(max, min, idle_timeout),
    {
        GenericConnectionPool { connector, max, min, idle_timeout, live: 0, idle: VecDeque::new() }
    }

    /// The most connections the pool will ever hold.
    pub fn max_connections(&self) -> (n: u8)
        ensures
            n == self@.max,
    {
        self.max
    }

    /// The count the reaper trims down to.
    pub fn min_connections(&self) -> (n: u8)
        ensures
            n == self@.min,
    {
        self.min
    }

    /// How long, in milliseconds, a connection may sit idle before the
    /// reaper evicts it.
    pub fn idle_timeout(&self) -> (t: u64)
        ensures
            t == self@.idle_timeout,
    {
        self.idle_timeout
    }

    /// The number of connections that exist, idle or checked out.
    pub fn live_connections(&self) -> (n: u8)
        ensures
            n == self@.live,
    {
        self.live
    }

    /// The number of connections waiting in the queue.
    pub fn idle_connections(&self) -> (n: usize)
        ensures
            n == self@.idle.len(),
    {
        self.idle.len()
    }

    /// The number of connections checked out.
    pub fn outstanding(&self) -> (n: u8)
        ensures
            n == self@.outstanding(),
    {
        proof {
            use_type_invariant(self);
        }
        let idle: usize = self.idle.len();
        self.live - (idle as u8)
    }

    /// Moves the queue out of the pool, leaving an empty one, so that it can
    /// be changed and put back in one assignment.
    fn take_queue(&mut self) -> (queue: VecDeque<PoolEntry<E>>)
        ensures
            queue@ == old(self)@.idle,
            final(self)@ == (PoolState { idle: Seq::empty(), ..old(self)@ }),
    {
        proof {
            use_type_invariant(&*self);
        }
        let mut queue = VecDeque::new();
        std::mem::swap(&mut queue, &mut self.idle);
        queue
    }

    /// Asks the connection at the head of the queue whether it is alive.
    /// Nothing is known of the answer.
    pub(crate) fn head_is_alive(&self) -> (alive: bool)
        requires
            self@.idle.len() > 0,
    {
        self.idle[0].conn.is_alive()
    }

    /// Takes the head of the queue, given what its liveness check said.
    ///
    /// An alive head is handed out and stays counted. A dead head is
    /// destroyed: it is handed to nobody and the live count drops by one.
    pub fn settle_head(&mut self, alive: bool) -> (lease: Option<LiveConnection<E>>)
        requires
            old(self)@.idle.len() > 0,
        ensures
            final(self).wf(),
            alive ==> final(self)@ == old(self)@.head_leased(),
            alive ==> (lease matches Some(l) && l@ == Some(old(self)@.idle[0].conn)),
            !alive ==> final(self)@ == old(self)@.head_purged(),
            !alive ==> lease is None,
    {
        proof {
            use_type_invariant(&*self);
        }
        let mut queue = self.take_queue();
        let head = queue.pop_front();
        self.idle = queue;
        match head {
            Some(entry) => {
                if alive {
                    Some(LiveConnection::holding(entry.conn))
                } else {
                    self.live = self.live - 1;
                    None
                }
            },
            None => None,
        }
    }

    /// Whether the pool may still grow: the live count is below the maximum.
    pub fn may_create(&self) -> (room: bool)
        ensures
            room == (self@.live < self@.max),
    {
        self.live < self.max
    }

    /// Asks the connector for a new connection. Nothing is known of the
    /// answer, and the pool does not change: the answer goes to `adopt`.
    pub(crate) fn connect_once(&self) -> (made: Option<E::Conn>) {
        self.connector.connect()
    }

    /// Takes in what the connector answered.
    ///
    /// A new connection is counted and handed out at once. An absent one
    /// changes nothing.
    pub fn adopt(&mut self, made: Option<E::Conn>) -> (lease: Option<LiveConnection<E>>)
        requires
            old(self)@.live < old(self)@.max,
        ensures
            final(self).wf(),
            made is Some ==> final(self)@ == old(self)@.grown(),
            made is Some ==> (lease matches Some(l) && l@ == made),
            made is None ==> final(self)@ == old(self)@,
            made is None ==> lease is None,
    {
        proof {
            use_type_invariant(&*self);
        }
        match made {
            Some(conn) => {
                self.live = self.live + 1;
                Some(LiveConnection::holding(conn))
            },
            None => None,
        }
    }

    /// Returns a checked-out connection to the tail of the queue, stamped
    /// with the time `now`. No liveness check is made here.
    ///
    /// The connection is moved out of the handle, so a handle that was
    /// already released returns nothing and the queue stays as it is. The
    /// result says whether an entry was queued.
    pub fn release(&mut self, lease: &mut LiveConnection<E>, now: u64) -> (queued: bool)
        requires
            old(lease)@ is Some ==> old(self)@.outstanding() > 0,
        ensures
            final(self).wf(),
            final(self)@ == old(self)@.after_release(old(lease)@, now),
            final(lease)@ is None,
            queued == (old(lease)@ is Some),
    {
        proof {
            use_type_invariant(&*self);
        }
        match lease.take() {
            Some(conn) => {
                let mut queue = self.take_queue();
                queue.push_back(PoolEntry { conn, idle_since: now });
                self.idle = queue;
                true
            },
            None => false,
        }
    }

    /// Judges the head of the queue during maintenance at time `now`, given
    /// what its liveness check said.
    ///
    /// A head that is alive and has been idle for less than the timeout is
    /// kept: it moves to the tail with its idle time unchanged. Any other
    /// head is destroyed and the live count drops by one. The result says
    /// whether the head was kept.
    pub fn reap_head(&mut self, alive: bool, now: u64) -> (kept: bool)
        requires
            old(self)@.idle.len() > 0,
            old(self)@.live > old(self)@.min,
        ensures
            final(self).wf(),
            kept == (alive && old(self)@.idle[0].fresh_at(now, old(self)@.idle_timeout)),
            kept ==> final(self)@ == old(self)@.head_requeued(),
            !kept ==> final(self)@ == old(self)@.head_purged(),
    {
        proof {
            use_type_invariant(&*self);
        }
        let mut queue = self.take_queue();
        let head = queue.pop_front();
        match head {
            Some(entry) => {
                if alive && entry.is_fresh(now, self.idle_timeout) {
                    queue.push_back(entry);
                    self.idle = queue;
                    true
                } else {
                    self.idle = queue;
                    self.live = self.live - 1;
                    false
                }
            },
            None => {
                self.idle = queue;
                false
            },
        }
    }
}

} // verus!

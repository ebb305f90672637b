use connection_pool::{
    Acquired, Connection, ConnectionConnector, GenericConnectionPool, LiveConnection, PoolEntry,
    ReapEnd,
};
use std::cell::{Cell, RefCell};
use std::rc::Rc;

struct Line {
    id: usize,
    up: Rc<Cell<bool>>,
}

impl Connection for Line {
    fn is_alive(&self) -> bool {
        self.up.get()
    }
}

struct Exchange {
    lines: Rc<RefCell<Vec<Rc<Cell<bool>>>>>,
}

impl ConnectionConnector for Exchange {
    type Conn = Line;

    fn connect(&self) -> Option<Line> {
        let up = Rc::new(Cell::new(true));
        let id = self.lines.borrow().len();
        self.lines.borrow_mut().push(up.clone());
        Some(Line { id, up })
    }
}

type Lines = Rc<RefCell<Vec<Rc<Cell<bool>>>>>;

fn lines() -> Lines {
    Rc::new(RefCell::new(Vec::new()))
}

fn take(p: &mut GenericConnectionPool<Exchange>) -> LiveConnection<Exchange> {
    match p.acquire() {
        Acquired::Reused(lease) => lease,
        Acquired::Created(lease) => lease,
        Acquired::Unavailable => panic!("the connector gave nothing"),
        Acquired::Exhausted => panic!("the pool is exhausted"),
    }
}

/// A pool holding `n` idle connections, released in order of creation at the
/// times given.
fn idle_pool(
    max: u8,
    min: u8,
    timeout: u64,
    released_at: &[u64],
    ls: &Lines,
) -> GenericConnectionPool<Exchange> {
    let mut p = GenericConnectionPool::new(max, min, timeout, Exchange { lines: ls.clone() });
    let mut held = Vec::new();
    for _ in released_at {
        held.push(take(&mut p));
    }
    for (lease, at) in held.iter_mut().zip(released_at) {
        assert!(p.release(lease, *at));
    }
    p
}

fn head_id(p: &mut GenericConnectionPool<Exchange>) -> usize {
    let lease = p.settle_head(true).expect("a head");
    lease.connection().expect("held").id
}

#[test]
fn entry_is_fresh_strictly_below_the_timeout() {
    let ls = lines();
    let conn = Exchange { lines: ls.clone() }.connect().expect("a line");
    let entry: PoolEntry<Exchange> = PoolEntry { conn, idle_since: 10 };
    assert!(entry.is_fresh(10, 100));
    assert!(entry.is_fresh(109, 100));
    assert!(!entry.is_fresh(110, 100));
    assert!(!entry.is_fresh(111, 100));
    assert!(!entry.is_fresh(u64::MAX, 100));
}

#[test]
fn entry_read_before_it_became_idle_counts_as_no_time() {
    let ls = lines();
    let conn = Exchange { lines: ls.clone() }.connect().expect("a line");
    let entry: PoolEntry<Exchange> = PoolEntry { conn, idle_since: 500 };
    assert!(entry.is_fresh(499, 1));
    assert!(entry.is_fresh(0, u64::MAX));
    assert!(!entry.is_fresh(499, 0));
}

#[test]
fn entry_is_never_fresh_with_a_zero_timeout() {
    let ls = lines();
    let conn = Exchange { lines: ls.clone() }.connect().expect("a line");
    let entry: PoolEntry<Exchange> = PoolEntry { conn, idle_since: 3 };
    assert!(!entry.is_fresh(3, 0));
    assert!(!entry.is_fresh(4, 0));
}

#[test]
fn reap_does_nothing_at_or_below_the_minimum() {
    let ls = lines();
    let mut p = idle_pool(5, 2, 100, &[0, 0], &ls);
    let report = p.reap(1_000_000);
    assert_eq!(report.destroyed, 0);
    assert_eq!(report.end, ReapEnd::Trimmed);
    assert_eq!(p.live_connections(), 2);
    assert_eq!(p.idle_connections(), 2);

    let mut empty = idle_pool(5, 2, 100, &[], &ls);
    let report = empty.reap(5);
    assert_eq!(report.destroyed, 0);
    assert_eq!(report.end, ReapEnd::Trimmed);
    assert_eq!(empty.live_connections(), 0);
}

#[test]
fn reap_trims_stale_entries_down_to_the_minimum() {
    let ls = lines();
    let mut p = idle_pool(5, 2, 100, &[0, 0, 0, 0, 0], &ls);
    let report = p.reap(100);
    assert_eq!(report.destroyed, 3);
    assert_eq!(report.end, ReapEnd::Trimmed);
    assert_eq!(p.live_connections(), 2);
    assert_eq!(p.idle_connections(), 2);
    assert_eq!(head_id(&mut p), 3);
    assert_eq!(head_id(&mut p), 4);
}

#[test]
fn reap_stops_at_the_first_healthy_entry_and_requeues_it() {
    let ls = lines();
    let mut p = idle_pool(5, 1, 100, &[0, 10, 20, 30], &ls);
    let report = p.reap(105);
    assert_eq!(report.destroyed, 1);
    assert_eq!(report.end, ReapEnd::Requeued);
    assert_eq!(p.live_connections(), 3);
    assert_eq!(p.idle_connections(), 3);
    assert_eq!(head_id(&mut p), 2);
    assert_eq!(head_id(&mut p), 3);
    assert_eq!(head_id(&mut p), 1);
}

#[test]
fn requeued_entry_keeps_its_idle_time() {
    let ls = lines();
    let mut p = idle_pool(5, 1, 100, &[50, 60], &ls);
    let report = p.reap(149);
    assert_eq!(report.destroyed, 0);
    assert_eq!(report.end, ReapEnd::Requeued);
    assert_eq!(p.idle_connections(), 2);
    let report = p.reap(155);
    assert_eq!(report.destroyed, 0);
    assert_eq!(report.end, ReapEnd::Requeued);
    let report = p.reap(155);
    assert_eq!(report.destroyed, 1);
    assert_eq!(report.end, ReapEnd::Trimmed);
    assert_eq!(p.live_connections(), 1);
    assert_eq!(head_id(&mut p), 1);
}

#[test]
fn reap_destroys_dead_entries_even_when_fresh() {
    let ls = lines();
    let mut p = idle_pool(5, 1, 100, &[0, 0, 0], &ls);
    ls.borrow()[0].set(false);
    ls.borrow()[1].set(false);
    let report = p.reap(1);
    assert_eq!(report.destroyed, 2);
    assert_eq!(report.end, ReapEnd::Trimmed);
    assert_eq!(p.live_connections(), 1);
    assert_eq!(p.idle_connections(), 1);
    assert_eq!(head_id(&mut p), 2);
}

#[test]
fn reap_is_starved_when_the_rest_is_checked_out() {
    let ls = lines();
    let mut p = GenericConnectionPool::new(5, 1, 100, Exchange { lines: ls.clone() });
    let _a = take(&mut p);
    let _b = take(&mut p);
    let mut c = take(&mut p);
    let report = p.reap(0);
    assert_eq!(report.destroyed, 0);
    assert_eq!(report.end, ReapEnd::Starved);
    assert_eq!(p.live_connections(), 3);

    p.release(&mut c, 0);
    let report = p.reap(100);
    assert_eq!(report.destroyed, 1);
    assert_eq!(report.end, ReapEnd::Starved);
    assert_eq!(p.live_connections(), 2);
    assert_eq!(p.idle_connections(), 0);
    assert_eq!(p.outstanding(), 2);
}

#[test]
fn reap_head_keeps_only_what_is_alive_and_fresh() {
    let ls = lines();
    let mut p = idle_pool(5, 1, 100, &[0, 0, 0, 0], &ls);
    assert!(p.reap_head(true, 99));
    assert_eq!(p.live_connections(), 4);
    assert_eq!(p.idle_connections(), 4);
    assert!(!p.reap_head(false, 99));
    assert_eq!(p.live_connections(), 3);
    assert_eq!(p.idle_connections(), 3);
    assert!(!p.reap_head(true, 100));
    assert_eq!(p.live_connections(), 2);
    assert_eq!(p.idle_connections(), 2);
    assert!(!p.reap_head(false, 100));
    assert_eq!(p.live_connections(), 1);
    assert_eq!(p.idle_connections(), 1);
    assert_eq!(head_id(&mut p), 0);
}

#[test]
fn idle_pool_converges_to_the_minimum() {
    let ls = lines();
    let mut p = idle_pool(8, 3, 100, &[0, 5, 10, 15, 20, 25, 30, 35], &ls);
    let mut now: u64 = 0;
    let mut destroyed: u32 = 0;
    for _ in 0..6 {
        now += 100;
        let report = p.reap(now);
        destroyed += report.destroyed as u32;
        assert!(p.live_connections() >= 3);
    }
    assert_eq!(p.live_connections(), 3);
    assert_eq!(p.idle_connections(), 3);
    assert_eq!(destroyed, 5);
    let report = p.reap(now + 100);
    assert_eq!(report.destroyed, 0);
    assert_eq!(report.end, ReapEnd::Trimmed);
}

#[test]
fn one_pass_suffices_when_everything_is_stale() {
    let ls = lines();
    let mut p = idle_pool(8, 3, 100, &[0, 5, 10, 15, 20, 25, 30, 35], &ls);
    let report = p.reap(135);
    assert_eq!(report.destroyed, 5);
    assert_eq!(report.end, ReapEnd::Trimmed);
    assert_eq!(p.live_connections(), 3);
    assert_eq!(head_id(&mut p), 5);
}

#[test]
fn reap_never_goes_below_the_minimum_when_min_equals_max() {
    let ls = lines();
    let mut p = idle_pool(3, 3, 0, &[0, 0, 0], &ls);
    let report = p.reap(1_000);
    assert_eq!(report.destroyed, 0);
    assert_eq!(report.end, ReapEnd::Trimmed);
    assert_eq!(p.live_connections(), 3);
}

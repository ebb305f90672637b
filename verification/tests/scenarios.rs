use connection_pool::{
    Acquired, Connection, ConnectionConnector, GenericConnectionPool, LiveConnection, ReapEnd,
};
use std::cell::Cell;
use std::rc::Rc;

struct DummyConnection {
    serial: u32,
    alive: bool,
}

impl Connection for DummyConnection {
    fn is_alive(&self) -> bool {
        self.alive
    }
}

struct DummyConnectionConnector {
    made: Rc<Cell<u32>>,
    alive: bool,
}

impl ConnectionConnector for DummyConnectionConnector {
    type Conn = DummyConnection;

    fn connect(&self) -> Option<Self::Conn> {
        let serial = self.made.get();
        self.made.set(serial + 1);
        Some(DummyConnection { serial, alive: self.alive })
    }
}

fn connector(alive: bool) -> (DummyConnectionConnector, Rc<Cell<u32>>) {
    let made = Rc::new(Cell::new(0));
    (DummyConnectionConnector { made: made.clone(), alive }, made)
}

fn serial(lease: &LiveConnection<DummyConnectionConnector>) -> u32 {
    lease.connection().expect("held").serial
}

#[test]
fn reuse_single_connection() {
    let (cc, made) = connector(true);
    let mut pool = GenericConnectionPool::new(20, 2, 5_000, cc);
    let mut held = Vec::new();
    for i in 0..20 {
        let conn = pool.get_connection().unwrap();
        assert_eq!(serial(&conn), i);
        held.push(conn);
    }
    assert_eq!(pool.live_connections(), 20);
    assert!(pool.get_connection().is_none());
    for (i, conn) in held.iter_mut().enumerate() {
        assert!(pool.release(conn, (i as u64 + 5) * 1_000));
    }
    assert_eq!(pool.idle_connections(), 20);
    let again = pool.get_connection().unwrap();
    assert_eq!(serial(&again), 0);
    assert_eq!(made.get(), 20);
    assert_eq!(pool.live_connections(), 20);
}

#[test]
fn three_callers_on_a_pool_of_two() {
    let (cc, made) = connector(true);
    let mut pool = GenericConnectionPool::new(2, 1, 1_000, cc);
    let mut first = match pool.acquire() {
        Acquired::Created(lease) => lease,
        _ => panic!("the first caller gets a new connection"),
    };
    let second = match pool.acquire() {
        Acquired::Created(lease) => lease,
        _ => panic!("the second caller gets a new connection"),
    };
    assert_eq!(serial(&first), 0);
    assert_eq!(serial(&second), 1);
    assert!(matches!(pool.acquire(), Acquired::Exhausted));
    assert!(matches!(pool.acquire(), Acquired::Exhausted));
    assert_eq!(pool.live_connections(), 2);

    assert!(pool.release(&mut first, 10));
    let third = match pool.acquire() {
        Acquired::Reused(lease) => lease,
        _ => panic!("the third caller gets the released connection"),
    };
    assert_eq!(serial(&third), 0);
    assert_eq!(made.get(), 2);
    assert_eq!(pool.live_connections(), 2);
    assert_eq!(pool.idle_connections(), 0);
}

#[test]
fn five_idle_connections_are_trimmed_to_two() {
    let (cc, made) = connector(true);
    let mut pool = GenericConnectionPool::new(5, 2, 100, cc);
    let mut held = Vec::new();
    for _ in 0..5 {
        held.push(pool.get_connection().expect("below the maximum"));
    }
    for lease in held.iter_mut() {
        assert!(pool.release(lease, 0));
    }
    assert_eq!(pool.live_connections(), 5);
    let mut destroyed: u32 = 0;
    for tick in 1..=5u64 {
        let report = pool.reap(tick * 100);
        assert_ne!(report.end, ReapEnd::Starved);
        destroyed += report.destroyed as u32;
    }
    assert_eq!(destroyed, 3);
    assert_eq!(pool.live_connections(), 2);
    assert_eq!(pool.idle_connections(), 2);
    assert_eq!(pool.outstanding(), 0);
    assert_eq!(made.get(), 5);
}

#[test]
fn connections_that_are_never_alive_are_always_replaced() {
    let (cc, made) = connector(false);
    let mut pool = GenericConnectionPool::new(3, 1, 100, cc);
    for round in 0..10u32 {
        let mut lease = match pool.acquire() {
            Acquired::Created(lease) => lease,
            _ => panic!("every acquisition creates a connection"),
        };
        assert_eq!(serial(&lease), round);
        assert!(pool.live_connections() <= 3);
        assert_eq!(pool.live_connections(), 1);
        assert!(pool.release(&mut lease, round as u64));
        assert_eq!(pool.idle_connections(), 1);
    }
    assert_eq!(made.get(), 10);

    let mut held = Vec::new();
    for _ in 0..3 {
        match pool.acquire() {
            Acquired::Created(lease) => held.push(lease),
            _ => panic!("every acquisition creates a connection"),
        }
        assert!(pool.live_connections() <= 3);
    }
    assert_eq!(pool.live_connections(), 3);
    assert!(matches!(pool.acquire(), Acquired::Exhausted));
    for lease in held.iter_mut() {
        pool.release(lease, 50);
    }
    assert_eq!(pool.idle_connections(), 3);
    let lease = match pool.acquire() {
        Acquired::Created(lease) => lease,
        _ => panic!("every acquisition creates a connection"),
    };
    assert_eq!(serial(&lease), 13);
    assert_eq!(pool.live_connections(), 1);
    assert_eq!(pool.idle_connections(), 0);
}

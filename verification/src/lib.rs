//! A bounded pool of reusable connections.
//!
//! The pool keeps idle connections in a first-in, first-out queue, counts
//! every connection it has created and not yet destroyed, and never lets that
//! count pass a fixed maximum. Everything here is sequential: the pool is a
//! value that is stepped by its owner, and each step says in its contract how
//! the pool's abstract state changes. Waiting, clocks and threads are the
//! caller's business; the pool is told the time and reports when a caller
//! has to wait.

pub mod connector;
pub mod entry;
pub mod lease;
pub mod state;
pub mod pool;
pub mod acquire;
pub mod reaper;
pub mod machine;
pub mod laws;

pub use acquire::Acquired;
pub use connector::{Connection, ConnectionConnector};
pub use entry::PoolEntry;
pub use lease::LiveConnection;
pub use pool::GenericConnectionPool;
pub use reaper::{ReapEnd, Reaped};

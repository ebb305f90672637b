//! What a resource provider has to supply: a way to open a connection and a
//! way to ask an open connection whether it can still be used.

use vstd::prelude::*;

verus! {

/// A pooled resource.
pub trait Connection {
    /// Reports whether the connection is still usable. The answer is a
    /// snapshot: it may differ from one call to the next, so the pool asks
    /// once per handoff and promises nothing about the answer.
    fn is_alive(&self) -> bool;
}

/// A factory of connections.
pub trait ConnectionConnector {
    type Conn: Connection;

    /// Opens a new connection, or returns `None` when none can be had right
    /// now. `None` is not an error: the caller may simply ask again.
    fn connect(&self) -> Option<Self::Conn>;
}

} // verus!

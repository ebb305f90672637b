//! The handle a caller holds while a connection is checked out.

use vstd::prelude::*;
use crate::connector::ConnectionConnector;

verus! {

/// Exclusive access to one connection of a pool. The pool hands these out
/// and takes the connection back out of them on release; there is no other
/// way to make one. Once released the handle is empty and stays empty, so a
/// second release finds nothing to return.
pub struct LiveConnection<E: ConnectionConnector> {
    conn: Option<E::Conn>,
}

impl<E: ConnectionConnector> View for LiveConnection<E> {
    type V = Option<E::Conn>;

    /// The connection held, or `None` after release.
    closed spec fn view(&self) -> Option<E::Conn> {
        self.conn
    }
}

impl<E: ConnectionConnector> LiveConnection<E> {
    /// Wraps a connection that has just left the pool.
    pub(crate) fn holding(conn: E::Conn) -> (lease: Self)
        ensures
            lease@ == Some(conn),
    {
        LiveConnection { conn: Some(conn) }
    }

    /// Moves the connection out, leaving the handle empty.
    pub(crate) fn take(&mut self) -> (conn: Option<E::Conn>)
        ensures
            conn == old(self)@,
            final(self)@ is None,
    {
        self.conn.take()
    }

    /// Whether the handle still holds its connection.
    pub fn is_held(&self) -> (held: bool)
        ensures
            held == (self@ is Some),
    {
        self.conn.is_some()
    }

    /// The connection, for as long as it is held.
    pub fn connection(&self) -> (conn: Option<&E::Conn>)
        ensures
            conn is Some == (self@ is Some),
            conn matches Some(c) ==> self@ == Some(*c),
    {
        self.conn.as_ref()
    }

    /// The connection, for changing it in place, for as long as it is held.
    /// The handle holds afterwards whatever the caller left in it.
    pub fn connection_mut(&mut self) -> (conn: Option<&mut E::Conn>)
        ensures
            conn is Some == (old(self)@ is Some),
            conn matches Some(c) ==> old(self)@ == Some(*c) && final(self)@ == Some(*final(c)),
            conn is None ==> final(self)@ is None,
    {
        self.conn.as_mut()
    }
}

} // verus!

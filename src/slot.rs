use crate::error::{S9Result, S9WebSocketError};
use vstd::prelude::*;

verus! {

/// The connection of a client that hands it to a worker thread: it holds the
/// connection until the one run that takes it.
pub struct SocketSlot<T> {
    socket: Option<T>,
}

impl<T> SocketSlot<T> {
    /// The connection, while no run has taken it.
    pub closed spec fn held(&self) -> Option<T> {
        self.socket
    }

    /// A slot that holds `socket`.
    pub fn new(socket: T) -> (r: SocketSlot<T>)
        ensures
            r.held() == Some(socket),
    {
        SocketSlot { socket: Some(socket) }
    }

    /// Takes the connection for a run. It can be taken once: afterwards the
    /// slot is empty, and a second take fails with `SocketUnavailable`.
    pub fn take(&mut self) -> (r: S9Result<T>)
        ensures
            final(self).held() is None,
            old(self).held() is Some ==> r == Ok::<T, S9WebSocketError>(old(self).held()->0),
            old(self).held() is None ==> (r is Err && r->Err_0 is SocketUnavailable),
    {
        match self.socket.take() {
            Some(s) => Ok(s),
            None => Err(S9WebSocketError::SocketUnavailable),
        }
    }

    /// Whether the connection is still here.
    pub fn is_held(&self) -> (r: bool)
        ensures
            r == self.held() is Some,
    {
        self.socket.is_some()
    }

    /// The connection, while no run has taken it.
    pub fn get(&self) -> (r: Option<&T>)
        ensures
            r is Some <==> self.held() is Some,
            r is Some ==> *r->0 == self.held()->0,
    {
        self.socket.as_ref()
    }

    /// The connection, for changes, while no run has taken it.
    pub fn get_mut(&mut self) -> (r: Option<&mut T>)
        ensures
            r is Some <==> old(self).held() is Some,
            r is Some ==> *r->0 == old(self).held()->0 && final(self).held() == Some(
                *final(r->0),
            ),
            r is None ==> final(self).held() is None,
    {
        self.socket.as_mut()
    }
}

} // verus!

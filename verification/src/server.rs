//! The server's side of an endpoint: one connection for each client that
//! the listener accepts.

use crate::connection::{Connection, ReceiveState};
use crate::error::ConnectionError;
use crate::model::OptionsRaw;
use std::marker::PhantomData;
use vstd::prelude::*;

verus! {

/// A instance of a server: its connections send `T` and receive `R`.
#[derive(Debug)]
pub struct Server<T, R> {
    opts: OptionsRaw,
    _tx: PhantomData<T>,
    _rx: PhantomData<R>,
}

impl<T, R> Server<T, R> {
    /// The options that the server was created with.
    pub closed spec fn options(&self) -> OptionsRaw {
        self.opts
    }

    /// Get a new Server for a listener that is bound.
    pub fn new(opts: OptionsRaw) -> (server: Self)
        ensures
            server.options() == opts,
    {
        Server { opts, _tx: PhantomData, _rx: PhantomData }
    }

    /// The options that the server was created with.
    pub fn opts(&self) -> (opts: &OptionsRaw)
        ensures
            *opts == self.options(),
    {
        &self.opts
    }

    /// The next of the connections, given what the listener's accept gave:
    /// a fresh connection with the server's magic bytes, or `InitError` with
    /// the error of the accept. One failed accept does not end the sequence:
    /// the server is as it was, and can take the next.
    pub fn connections(&self, accepted: Result<(), std::io::Error>) -> (connection: Result<
        Connection<T, R>,
        ConnectionError,
    >)
        ensures
            match accepted {
                Ok(_) => connection is Ok && connection->Ok_0.magic()
                    == self.options().spec_magic_bytes() && connection->Ok_0.state()
                    == ReceiveState::Header,
                Err(e) => connection is Err && connection->Err_0 == ConnectionError::InitError(e),
            },
    {
        match accepted {
            Ok(_) => Ok(Connection::new(self.opts.magic_bytes())),
            Err(e) => Err(ConnectionError::InitError(e)),
        }
    }
}

} // verus!

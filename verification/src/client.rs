//! The client's end of a connection.

use crate::connection::{read_view, receive_step, Connection, ReceiveAction, ReceiveState};
use crate::error::ConnectionError;
use crate::model::OptionsRaw;
use crate::packet::{frame_spec, header_len};
use vstd::prelude::*;

verus! {

/// Client that is able to connect to a server and send/receive messages:
/// it sends `T` and receives `R`.
#[derive(Debug)]
pub struct Client<T, R> {
    connection: Connection<T, R>,
}

impl<T, R> Client<T, R> {
    /// The magic bytes that both ends agreed on.
    pub closed spec fn magic(&self) -> Seq<u8> {
        self.connection.magic()
    }

    /// How far the receiving of the current message has come.
    pub closed spec fn state(&self) -> ReceiveState {
        self.connection.state()
    }

    /// Create a new client for a stream that is connected.
    pub fn new(opts: OptionsRaw) -> (client: Self)
        ensures
            client.magic() == opts.spec_magic_bytes(),
            client.state() == ReceiveState::Header,
    {
        Client { connection: Connection::new(opts.into_magic_bytes()) }
    }

    /// Send a message to the server: the frame to write, given what
    /// serializing the message gave.
    pub fn send(&self, serialized: Result<Vec<u8>, bitcode::Error>) -> (frame: Result<
        Vec<u8>,
        ConnectionError,
    >)
        ensures
            match serialized {
                Ok(payload) => frame is Ok && frame->Ok_0@ == frame_spec(self.magic(), payload@),
                Err(e) => frame is Err && frame->Err_0 == ConnectionError::SerilizationFailed(e),
            },
    {
        self.connection.send(serialized)
    }

    /// The result of `send`, given what writing the whole frame gave.
    pub fn sent(&self, written: Result<(), std::io::Error>) -> (result: Result<
        (),
        ConnectionError,
    >)
        ensures
            match written {
                Ok(_) => result is Ok,
                Err(e) => result is Err && result->Err_0 == ConnectionError::WriteFailed(e),
            },
    {
        self.connection.sent(written)
    }

    /// Receive a message from the server: the number of bytes of the first
    /// read, which is to supply the header.
    pub fn receive(&mut self) -> (len: usize)
        ensures
            final(self).magic() == old(self).magic(),
            final(self).state() == ReceiveState::Header,
            len == header_len(old(self).magic()),
    {
        self.connection.receive()
    }

    /// Takes what a read reported and says what to do next.
    pub fn on_read(&mut self, read: Result<Vec<u8>, std::io::Error>) -> (action: ReceiveAction)
        ensures
            final(self).magic() == old(self).magic(),
            (final(self).state(), action@) == receive_step(
                old(self).magic(),
                old(self).state(),
                read_view(read),
            ),
    {
        self.connection.on_read(read)
    }

    /// The result of `receive`, given what decoding the payload gave.
    pub fn received(&self, decoded: Result<R, bitcode::Error>) -> (message: Result<
        R,
        ConnectionError,
    >)
        ensures
            match decoded {
                Ok(m) => message is Ok && message->Ok_0 == m,
                Err(e) => message is Err && message->Err_0
                    == ConnectionError::DeserilizationFailed(e),
            },
    {
        self.connection.received(decoded)
    }
}

} // verus!

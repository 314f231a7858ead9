//! What can go wrong on a connection, and when an endpoint is set up.

use vstd::prelude::*;

verus! {

/// The error of the operating system's I/O, carried as it came.
#[verifier::external_type_specification]
#[verifier::external_body]
pub struct ExIoError(std::io::Error);

/// The error of the message codec, carried as it came.
#[verifier::external_type_specification]
#[verifier::external_body]
pub struct ExCodecError(bitcode::Error);

/// Errors that can result from using a connection
#[derive(Debug)]
#[non_exhaustive]
pub enum ConnectionError {
    /// Header magic bytes did not match
    HeaderMismatch,
    /// Packet was larger that `usize` bytes, this may be due to a malformed header.
    PacketTooLarge,
    /// Not enough bytes to read the packet
    UnexepctedEof,
    /// Failed serializing a struct
    SerilizationFailed(bitcode::Error),
    /// Failed de-serializing a struct
    DeserilizationFailed(bitcode::Error),
    /// Failed writing to the connection
    WriteFailed(std::io::Error),
    /// Failed reading from the connection
    ReadFailed(std::io::Error),
    /// Failing initializing the connection
    InitError(std::io::Error),
}

/// And error that occurred during initialization of a server or client.
#[derive(Debug)]
#[non_exhaustive]
pub enum InitError {
    /// Wasn't able to construct a namespace
    FailedGettingNamespace,
    /// Path was not formatted correctly either for the OS or the socket type.
    BadPath,
    /// Server is already connected an running, can't create a new one.
    ServerAlreadyRunning,
    /// Generic IO error like permission denied
    FailedConnectingToSocket(std::io::Error),
    /// Specific to servers trying to connect to already existing sockets. This can happen if a
    /// server is already running or it exited in a non-graceful way.
    SocketAlreadyExists,
}

} // verus!

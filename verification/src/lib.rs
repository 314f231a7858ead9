//! Typed, length-framed message exchange between one server and its clients
//! over a local byte stream: the wire codec, the per-connection protocol and
//! the rules of the server's lifecycle, with every rule stated as a contract.
//!
//! The library performs no I/O. A transport reads and writes for it, and
//! hands it what each read, write, bind and accept gave.

/// A calculator service, as an example of a model
pub mod calculator;
/// Client process
pub mod client;
/// Connection between client and server
pub mod connection;
/// Error enumerations
pub mod error;
/// Handle OS signals
pub mod handlers;
/// Definition of client server model
pub mod model;
/// Handle getting default namespace information
pub mod namespace;
/// Packets used to send data across the sockets
pub mod packet;
/// Server process
pub mod server;

//! Raw TCP frame streaming on the viewer side: the 20-byte big-endian
//! header, frames, and the client's checks on what it reads.

pub mod client;
pub mod protocol;

pub use client::TcpClient;
pub use protocol::{Frame, FrameHeader};

use vstd::prelude::*;

verus! {

#[verifier::external_type_specification]
#[verifier::external_body]
pub struct ExIoError(std::io::Error);

/// Errors of network operations.
#[derive(Debug)]
pub enum NetworkError {
    /// Connecting failed.
    Connection(String),
    /// The peer sent something that does not follow the frame protocol.
    Protocol(String),
    /// An I/O error on the stream.
    Io(std::io::Error),
}

} // verus!

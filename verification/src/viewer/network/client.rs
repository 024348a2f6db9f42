//! The raw TCP frame client: where it connects, and the checks it makes on
//! each frame header it reads.

use vstd::prelude::*;

use crate::viewer::network::protocol::{payload_len, FrameHeader};
use crate::viewer::network::NetworkError;

verus! {

/// Largest payload the client accepts, in bytes.
pub const MAX_PAYLOAD_BYTES: u64 = 100_000_000u64;

/// TCP client that receives frames from the server.
#[derive(Debug)]
pub struct TcpClient {
    /// Address of the server (host:port).
    pub address: String,
}

impl TcpClient {
    /// A client for the server at `address`.
    pub fn new(address: &str) -> (c: Self)
        ensures
            c.address@ == address@,
    {
        Self { address: address.to_owned() }
    }
}

/// The message of an oversized payload.
#[verifier::external_body]
fn oversized_message(size: u128) -> String {
    format!("Unreasonable payload size: {} bytes", size)
}

/// The payload size a header announces, refused above 100,000,000 bytes
/// (so that no unreasonable allocation follows).
pub fn checked_payload_size(header: &FrameHeader) -> (r: Result<usize, NetworkError>)
    ensures
        payload_len(*header) <= MAX_PAYLOAD_BYTES ==> r == Ok::<usize, NetworkError>(payload_len(*header) as usize),
        payload_len(*header) > MAX_PAYLOAD_BYTES ==> r matches Err(NetworkError::Protocol(_)),
{
    let w = header.width as u128;
    let h = header.height as u128;
    assert(w * h * 4 <= 0x4_0000_0000_0000_0000u128) by (nonlinear_arith)
        requires
            w <= 0xffff_ffff,
            h <= 0xffff_ffff,
    ;
    let size: u128 = w * h * 4;
    if size > MAX_PAYLOAD_BYTES as u128 {
        return Err(NetworkError::Protocol(oversized_message(size)));
    }
    Ok(size as usize)
}

} // verus!

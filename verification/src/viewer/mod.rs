//! Viewer-side logic: frame storage and decoding, input capture and
//! encoding, window tracking and the session's decisions.

pub mod display;
pub mod framebuf;
pub mod input;
pub mod network;
pub mod session;
pub mod window_manager;

use vstd::prelude::*;

verus! {

/// The crate version.
pub fn version() -> (v: &'static str)
    ensures
        v@ == "0.1.0"@,
{
    "0.1.0"
}

} // verus!

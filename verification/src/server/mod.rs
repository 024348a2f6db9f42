//! Compositor-side logic: raw TCP streaming formats, window bookkeeping,
//! input routing and the network session's framing decisions.

pub mod handlers;
pub mod input;
pub mod streaming;
pub mod window;
pub mod rendering;
pub mod bridge;
pub mod net;
pub mod state;
pub mod wl_shell;

use vstd::prelude::*;

verus! {

/// The crate version.
pub fn version() -> (v: &'static str)
    ensures
        v@ == "0.1.0"@,
{
    "0.1.0"
}

} // verus!
pub mod driver;

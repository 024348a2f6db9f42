//! Verified core of the wayland-remote wire protocol, compositor bookkeeping
//! and viewer-side frame/input handling.

pub mod clock;
pub mod protocol;
pub mod server;
pub mod wire;
pub mod viewer;

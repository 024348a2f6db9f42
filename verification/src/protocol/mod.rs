//! Wire-format contract between the compositor (server) and the viewer.

pub mod codec;
pub mod message;
pub mod compress;

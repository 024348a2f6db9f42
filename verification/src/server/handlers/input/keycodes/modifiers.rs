//! Modifier bit flags carried in key events.

use vstd::prelude::*;

verus! {

/// Shift held.
pub const SHIFT: u8 = 0x01u8;
/// Control held.
pub const CTRL: u8 = 0x02u8;
/// Alt held.
pub const ALT: u8 = 0x04u8;
/// Super (Windows/Command) held.
pub const SUPER: u8 = 0x08u8;

} // verus!

//! Scancode to Linux keycode translation.
//!
//! Windows Set-1 scancodes are Linux evdev keycodes (scancode 0x1E = 30 =
//! KEY_A), so non-extended scancodes pass through unchanged. Extended keys,
//! sent by the viewer with a 0x100 offset, go through a lookup table.

use vstd::prelude::*;

verus! {

/// Linux keycode of a Set-1 extended scancode, for the keys the table covers.
pub open spec fn extended_table(ext: u8) -> Option<u32> {
    if ext == 0x1C {
        Some(96u32)
    } else if ext == 0x1D {
        Some(97u32)
    } else if ext == 0x35 {
        Some(98u32)
    } else if ext == 0x38 {
        Some(100u32)
    } else if ext == 0x47 {
        Some(102u32)
    } else if ext == 0x48 {
        Some(103u32)
    } else if ext == 0x49 {
        Some(104u32)
    } else if ext == 0x4B {
        Some(105u32)
    } else if ext == 0x4D {
        Some(106u32)
    } else if ext == 0x4F {
        Some(107u32)
    } else if ext == 0x50 {
        Some(108u32)
    } else if ext == 0x51 {
        Some(109u32)
    } else if ext == 0x52 {
        Some(110u32)
    } else if ext == 0x53 {
        Some(111u32)
    } else {
        None
    }
}

/// The keycode a viewer scancode stands for: itself below 0x100, otherwise
/// the extended-table entry of its low byte.
pub open spec fn keycode_of(scancode: u16) -> Option<u32> {
    if scancode < 0x100 {
        Some(scancode as u32)
    } else {
        extended_table((scancode % 256) as u8)
    }
}

/// Translate a viewer scancode to a Linux evdev keycode; `None` for an
/// unmapped extended key.
pub fn scancode_to_keycode(scancode: u16) -> (r: Option<u32>)
    ensures
        r == keycode_of(scancode),
{
    if scancode < 0x100 {
        Some(scancode as u32)
    } else {
        let low = (scancode & 0xFF) as u8;
        assert((scancode & 0xFF) == scancode % 256) by (bit_vector);
        extended_keycode(low)
    }
}

/// Extended scancode to Linux keycode (Set-1 extended keys).
fn extended_keycode(ext: u8) -> (r: Option<u32>)
    ensures
        r == extended_table(ext),
{
    match ext {
        0x1C => Some(96),
        0x1D => Some(97),
        0x35 => Some(98),
        0x38 => Some(100),
        0x47 => Some(102),
        0x48 => Some(103),
        0x49 => Some(104),
        0x4B => Some(105),
        0x4D => Some(106),
        0x4F => Some(107),
        0x50 => Some(108),
        0x51 => Some(109),
        0x52 => Some(110),
        0x53 => Some(111),
        _ => None,
    }
}

} // verus!

//! Linux input event codes and the Windows virtual-key mapping onto them.

pub mod modifiers;

use vstd::prelude::*;

verus! {

pub const KEY_RESERVED: u32 = 0u32;
pub const KEY_ESC: u32 = 1u32;
pub const KEY_1: u32 = 2u32;
pub const KEY_2: u32 = 3u32;
pub const KEY_3: u32 = 4u32;
pub const KEY_4: u32 = 5u32;
pub const KEY_5: u32 = 6u32;
pub const KEY_6: u32 = 7u32;
pub const KEY_7: u32 = 8u32;
pub const KEY_8: u32 = 9u32;
pub const KEY_9: u32 = 10u32;
pub const KEY_0: u32 = 11u32;
pub const KEY_MINUS: u32 = 12u32;
pub const KEY_EQUAL: u32 = 13u32;
pub const KEY_BACKSPACE: u32 = 14u32;
pub const KEY_TAB: u32 = 15u32;
pub const KEY_Q: u32 = 16u32;
pub const KEY_W: u32 = 17u32;
pub const KEY_E: u32 = 18u32;
pub const KEY_R: u32 = 19u32;
pub const KEY_T: u32 = 20u32;
pub const KEY_Y: u32 = 21u32;
pub const KEY_U: u32 = 22u32;
pub const KEY_I: u32 = 23u32;
pub const KEY_O: u32 = 24u32;
pub const KEY_P: u32 = 25u32;
pub const KEY_LEFTBRACE: u32 = 26u32;
pub const KEY_RIGHTBRACE: u32 = 27u32;
pub const KEY_ENTER: u32 = 28u32;
pub const KEY_LEFTCTRL: u32 = 29u32;
pub const KEY_A: u32 = 30u32;
pub const KEY_S: u32 = 31u32;
pub const KEY_D: u32 = 32u32;
pub const KEY_F: u32 = 33u32;
pub const KEY_G: u32 = 34u32;
pub const KEY_H: u32 = 35u32;
pub const KEY_J: u32 = 36u32;
pub const KEY_K: u32 = 37u32;
pub const KEY_L: u32 = 38u32;
pub const KEY_SEMICOLON: u32 = 39u32;
pub const KEY_APOSTROPHE: u32 = 40u32;
pub const KEY_GRAVE: u32 = 41u32;
pub const KEY_LEFTSHIFT: u32 = 42u32;
pub const KEY_BACKSLASH: u32 = 43u32;
pub const KEY_Z: u32 = 44u32;
pub const KEY_X: u32 = 45u32;
pub const KEY_C: u32 = 46u32;
pub const KEY_V: u32 = 47u32;
pub const KEY_B: u32 = 48u32;
pub const KEY_N: u32 = 49u32;
pub const KEY_M: u32 = 50u32;
pub const KEY_COMMA: u32 = 51u32;
pub const KEY_DOT: u32 = 52u32;
pub const KEY_SLASH: u32 = 53u32;
pub const KEY_RIGHTSHIFT: u32 = 54u32;
pub const KEY_KPASTERISK: u32 = 55u32;
pub const KEY_LEFTALT: u32 = 56u32;
pub const KEY_SPACE: u32 = 57u32;
pub const KEY_CAPSLOCK: u32 = 58u32;
pub const KEY_F1: u32 = 59u32;
pub const KEY_F2: u32 = 60u32;
pub const KEY_F3: u32 = 61u32;
pub const KEY_F4: u32 = 62u32;
pub const KEY_F5: u32 = 63u32;
pub const KEY_F6: u32 = 64u32;
pub const KEY_F7: u32 = 65u32;
pub const KEY_F8: u32 = 66u32;
pub const KEY_F9: u32 = 67u32;
pub const KEY_F10: u32 = 68u32;
pub const KEY_F11: u32 = 87u32;
pub const KEY_F12: u32 = 88u32;
pub const KEY_RIGHTCTRL: u32 = 97u32;
pub const KEY_RIGHTALT: u32 = 100u32;
pub const KEY_HOME: u32 = 102u32;
pub const KEY_UP: u32 = 103u32;
pub const KEY_PAGEUP: u32 = 104u32;
pub const KEY_LEFT: u32 = 105u32;
pub const KEY_RIGHT: u32 = 106u32;
pub const KEY_END: u32 = 107u32;
pub const KEY_DOWN: u32 = 108u32;
pub const KEY_PAGEDOWN: u32 = 109u32;
pub const KEY_INSERT: u32 = 110u32;
pub const KEY_DELETE: u32 = 111u32;

/// The Linux key code a Windows virtual-key code stands for, for the keys
/// this mapping covers.
pub open spec fn vk_table(vk_code: u32) -> Option<u32> {
    if vk_code == 0x08 {
        Some(KEY_BACKSPACE)
    } else if vk_code == 0x09 {
        Some(KEY_TAB)
    } else if vk_code == 0x0D {
        Some(KEY_ENTER)
    } else if vk_code == 0x1B {
        Some(KEY_ESC)
    } else if vk_code == 0x20 {
        Some(KEY_SPACE)
    } else if vk_code == 0x21 {
        Some(KEY_PAGEUP)
    } else if vk_code == 0x22 {
        Some(KEY_PAGEDOWN)
    } else if vk_code == 0x23 {
        Some(KEY_END)
    } else if vk_code == 0x24 {
        Some(KEY_HOME)
    } else if vk_code == 0x25 {
        Some(KEY_LEFT)
    } else if vk_code == 0x26 {
        Some(KEY_UP)
    } else if vk_code == 0x27 {
        Some(KEY_RIGHT)
    } else if vk_code == 0x28 {
        Some(KEY_DOWN)
    } else if vk_code == 0x2D {
        Some(KEY_INSERT)
    } else if vk_code == 0x2E {
        Some(KEY_DELETE)
    } else if vk_code == 0x30 {
        Some(KEY_0)
    } else if vk_code == 0x31 {
        Some(KEY_1)
    } else if vk_code == 0x32 {
        Some(KEY_2)
    } else if vk_code == 0x33 {
        Some(KEY_3)
    } else if vk_code == 0x34 {
        Some(KEY_4)
    } else if vk_code == 0x35 {
        Some(KEY_5)
    } else if vk_code == 0x36 {
        Some(KEY_6)
    } else if vk_code == 0x37 {
        Some(KEY_7)
    } else if vk_code == 0x38 {
        Some(KEY_8)
    } else if vk_code == 0x39 {
        Some(KEY_9)
    } else if vk_code == 0x41 {
        Some(KEY_A)
    } else if vk_code == 0x42 {
        Some(KEY_B)
    } else if vk_code == 0x43 {
        Some(KEY_C)
    } else if vk_code == 0x44 {
        Some(KEY_D)
    } else if vk_code == 0x45 {
        Some(KEY_E)
    } else if vk_code == 0x46 {
        Some(KEY_F)
    } else if vk_code == 0x47 {
        Some(KEY_G)
    } else if vk_code == 0x48 {
        Some(KEY_H)
    } else if vk_code == 0x49 {
        Some(KEY_I)
    } else if vk_code == 0x4A {
        Some(KEY_J)
    } else if vk_code == 0x4B {
        Some(KEY_K)
    } else if vk_code == 0x4C {
        Some(KEY_L)
    } else if vk_code == 0x4D {
        Some(KEY_M)
    } else if vk_code == 0x4E {
        Some(KEY_N)
    } else if vk_code == 0x4F {
        Some(KEY_O)
    } else if vk_code == 0x50 {
        Some(KEY_P)
    } else if vk_code == 0x51 {
        Some(KEY_Q)
    } else if vk_code == 0x52 {
        Some(KEY_R)
    } else if vk_code == 0x53 {
        Some(KEY_S)
    } else if vk_code == 0x54 {
        Some(KEY_T)
    } else if vk_code == 0x55 {
        Some(KEY_U)
    } else if vk_code == 0x56 {
        Some(KEY_V)
    } else if vk_code == 0x57 {
        Some(KEY_W)
    } else if vk_code == 0x58 {
        Some(KEY_X)
    } else if vk_code == 0x59 {
        Some(KEY_Y)
    } else if vk_code == 0x5A {
        Some(KEY_Z)
    } else if vk_code == 0x70 {
        Some(KEY_F1)
    } else if vk_code == 0x71 {
        Some(KEY_F2)
    } else if vk_code == 0x72 {
        Some(KEY_F3)
    } else if vk_code == 0x73 {
        Some(KEY_F4)
    } else if vk_code == 0x74 {
        Some(KEY_F5)
    } else if vk_code == 0x75 {
        Some(KEY_F6)
    } else if vk_code == 0x76 {
        Some(KEY_F7)
    } else if vk_code == 0x77 {
        Some(KEY_F8)
    } else if vk_code == 0x78 {
        Some(KEY_F9)
    } else if vk_code == 0x79 {
        Some(KEY_F10)
    } else if vk_code == 0x7A {
        Some(KEY_F11)
    } else if vk_code == 0x7B {
        Some(KEY_F12)
    } else {
        None
    }
}

/// Map a Windows virtual key code to a Linux input event code; `None`
/// for keys outside the mapping.
pub fn vk_to_linux(vk_code: u32) -> (r: Option<u32>)
    ensures
        r == vk_table(vk_code),
{
    match vk_code {
        0x08 => Some(KEY_BACKSPACE),
        0x09 => Some(KEY_TAB),
        0x0D => Some(KEY_ENTER),
        0x1B => Some(KEY_ESC),
        0x20 => Some(KEY_SPACE),
        0x21 => Some(KEY_PAGEUP),
        0x22 => Some(KEY_PAGEDOWN),
        0x23 => Some(KEY_END),
        0x24 => Some(KEY_HOME),
        0x25 => Some(KEY_LEFT),
        0x26 => Some(KEY_UP),
        0x27 => Some(KEY_RIGHT),
        0x28 => Some(KEY_DOWN),
        0x2D => Some(KEY_INSERT),
        0x2E => Some(KEY_DELETE),
        0x30 => Some(KEY_0),
        0x31 => Some(KEY_1),
        0x32 => Some(KEY_2),
        0x33 => Some(KEY_3),
        0x34 => Some(KEY_4),
        0x35 => Some(KEY_5),
        0x36 => Some(KEY_6),
        0x37 => Some(KEY_7),
        0x38 => Some(KEY_8),
        0x39 => Some(KEY_9),
        0x41 => Some(KEY_A),
        0x42 => Some(KEY_B),
        0x43 => Some(KEY_C),
        0x44 => Some(KEY_D),
        0x45 => Some(KEY_E),
        0x46 => Some(KEY_F),
        0x47 => Some(KEY_G),
        0x48 => Some(KEY_H),
        0x49 => Some(KEY_I),
        0x4A => Some(KEY_J),
        0x4B => Some(KEY_K),
        0x4C => Some(KEY_L),
        0x4D => Some(KEY_M),
        0x4E => Some(KEY_N),
        0x4F => Some(KEY_O),
        0x50 => Some(KEY_P),
        0x51 => Some(KEY_Q),
        0x52 => Some(KEY_R),
        0x53 => Some(KEY_S),
        0x54 => Some(KEY_T),
        0x55 => Some(KEY_U),
        0x56 => Some(KEY_V),
        0x57 => Some(KEY_W),
        0x58 => Some(KEY_X),
        0x59 => Some(KEY_Y),
        0x5A => Some(KEY_Z),
        0x70 => Some(KEY_F1),
        0x71 => Some(KEY_F2),
        0x72 => Some(KEY_F3),
        0x73 => Some(KEY_F4),
        0x74 => Some(KEY_F5),
        0x75 => Some(KEY_F6),
        0x76 => Some(KEY_F7),
        0x77 => Some(KEY_F8),
        0x78 => Some(KEY_F9),
        0x79 => Some(KEY_F10),
        0x7A => Some(KEY_F11),
        0x7B => Some(KEY_F12),
        _ => None,
    }
}

} // verus!

//! Input injection: the serial counter and time base of injected events,
//! and what each network input event injects into the seat.

pub mod keymap;

use vstd::prelude::*;

use std::time::Instant;

use crate::clock::{elapsed_nanos, instant_now};
use crate::protocol::message::{ButtonState, InputEvent};
use crate::server::input::keymap::{keycode_of, scancode_to_keycode};
use crate::server::window::{has_id, ids_distinct, index_of, WindowManager};

verus! {

/// Hands out increasing serials (starting at 1, wrapping at `u32::MAX`)
/// and millisecond timestamps relative to its creation.
pub struct InputRouter {
    serial: u32,
    start: Instant,
}

/// The serial the `k`-th call of `next_serial` (counting from 0) on a new
/// router returns: `k + 1`, wrapping at 2^32.
pub open spec fn serial_after(k: nat) -> u32 {
    ((1 + k as int) % 0x1_0000_0000) as u32
}

/// Serials count up by one from 1 on a new router: a router holding the
/// `k`-th serial hands it out and then holds the `k + 1`-th, so the `k`-th
/// call returns `k + 1` (wrapping at 2^32).
pub proof fn lemma_serials_count_up(k: nat)
    ensures
        serial_after(0) == 1,
        serial_after(k + 1) == (if serial_after(k) == u32::MAX { 0 } else { (serial_after(k) + 1) as u32 }),
{
    let m: int = 0x1_0000_0000;
    let ki: int = k as int;
    let a: int = (1 + ki) % m;
    let b: int = (2 + ki) % m;
    assert(0 <= a < m && 0 <= b < m) by (nonlinear_arith)
        requires m == 0x1_0000_0000, a == (1 + ki) % m, b == (2 + ki) % m;
    assert(a == m - 1 ==> b == 0) by (nonlinear_arith)
        requires m == 0x1_0000_0000, a == (1 + ki) % m, b == (2 + ki) % m, ki >= 0;
    assert(a != m - 1 ==> b == a + 1) by (nonlinear_arith)
        requires m == 0x1_0000_0000, a == (1 + ki) % m, b == (2 + ki) % m, ki >= 0;
}

impl InputRouter {
    /// The serial the next event gets.
    pub closed spec fn next_serial_value(self) -> u32 {
        self.serial
    }

    /// A router whose first serial is 1 and whose time base is now.
    pub fn new() -> (r: Self)
        ensures
            r.next_serial_value() == 1,
            r.next_serial_value() == serial_after(0),
    {
        Self { serial: 1, start: instant_now() }
    }

    /// Take the next serial; the counter wraps around at `u32::MAX`.
    pub fn next_serial(&mut self) -> (s: u32)
        ensures
            s == old(self).next_serial_value(),
            final(self).next_serial_value() == (if s == u32::MAX { 0 } else { (s + 1) as u32 }),
            forall|k: nat|
                old(self).next_serial_value() == #[trigger] serial_after(k) ==> final(self).next_serial_value()
                    == serial_after(k + 1),
    {
        let s = self.serial;
        self.serial = self.serial.wrapping_add(1);
        proof {
            assert forall|k: nat|
                old(self).next_serial_value() == #[trigger] serial_after(k) implies self.next_serial_value()
                    == serial_after(k + 1) by {
                lemma_serials_count_up(k);
            }
        }
        s
    }

    /// Milliseconds since the router was created (truncated to 32 bits).
    pub fn now_ms(&self) -> u32 {
        millis_u32(elapsed_nanos(&self.start))
    }
}

impl Default for InputRouter {
    fn default() -> (r: Self)
        ensures
            r.next_serial_value() == 1,
    {
        Self::new()
    }
}

/// Whole milliseconds of a nanosecond count, truncated to 32 bits.
pub fn millis_u32(nanos: u128) -> (ms: u32)
    ensures
        ms == (nanos / 1_000_000) as u32,
{
    (nanos / 1_000_000) as u32
}

/// What a network input event injects into the seat.
#[derive(Debug, Clone, Copy, PartialEq, Eq, Structural)]
pub enum Injection {
    /// A key press or release with a Linux keycode.
    Key { keycode: u32, pressed: bool },
    /// A key whose scancode maps to no keycode; it is dropped.
    Dropped { scancode: u16 },
    /// Pointer motion to surface-local `(x, y)` (`f64` bits), focused on the
    /// target window's surface when it is tracked.
    Motion { focus: Option<u64>, x: u64, y: u64 },
    /// A pointer button press or release.
    Button { button: u32, pressed: bool },
    /// A wheel scroll by `(dx, dy)` (`f64` bits, in wheel steps).
    Axis { dx: u64, dy: u64 },
}

/// The injection for an event aimed at `window_id`.
pub open spec fn injection_for(wm: WindowManager, window_id: u64, event: InputEvent) -> Injection {
    match event {
        InputEvent::KeyDown { scancode } => match keycode_of(scancode) {
            Some(k) => Injection::Key { keycode: k, pressed: true },
            None => Injection::Dropped { scancode },
        },
        InputEvent::KeyUp { scancode } => match keycode_of(scancode) {
            Some(k) => Injection::Key { keycode: k, pressed: false },
            None => Injection::Dropped { scancode },
        },
        InputEvent::PointerMove { x, y } => Injection::Motion {
            focus: if has_id(wm.windows(), window_id) {
                Some(wm.windows()[index_of(wm.windows(), window_id)].surface_id)
            } else {
                None
            },
            x,
            y,
        },
        InputEvent::PointerButton { button, state } => Injection::Button {
            button,
            pressed: state == ButtonState::Pressed,
        },
        InputEvent::Axis { dx, dy } => Injection::Axis { dx, dy },
    }
}

/// Keys and buttons are injected in the direction they moved: a key-down
/// of a mapped scancode injects a press of its Linux keycode and a key-up
/// of the same scancode a release of the same keycode; an unmapped
/// scancode is dropped either way. A pointer button press is injected as
/// pressed and a release as released.
pub proof fn lemma_injection_direction(wm: WindowManager, window_id: u64, scancode: u16, button: u32)
    ensures
        (keycode_of(scancode) is Some) ==> injection_for(wm, window_id, InputEvent::KeyDown { scancode }) == (
        Injection::Key { keycode: keycode_of(scancode)->Some_0, pressed: true }),
        (keycode_of(scancode) is Some) ==> injection_for(wm, window_id, InputEvent::KeyUp { scancode }) == (
        Injection::Key { keycode: keycode_of(scancode)->Some_0, pressed: false }),
        (keycode_of(scancode) is None) ==> injection_for(wm, window_id, InputEvent::KeyDown { scancode }) == (
        Injection::Dropped { scancode }),
        (keycode_of(scancode) is None) ==> injection_for(wm, window_id, InputEvent::KeyUp { scancode }) == (
        Injection::Dropped { scancode }),
        injection_for(wm, window_id, InputEvent::PointerButton { button, state: ButtonState::Pressed }) == (
        Injection::Button { button, pressed: true }),
        injection_for(wm, window_id, InputEvent::PointerButton { button, state: ButtonState::Released }) == (
        Injection::Button { button, pressed: false }),
{
}

/// Decide what an input event aimed at `window_id` injects.
pub fn plan_injection(wm: &WindowManager, window_id: u64, event: InputEvent) -> (inj: Injection)
    requires
        ids_distinct(wm.windows()),
    ensures
        inj == injection_for(*wm, window_id, event),
{
    match event {
        InputEvent::KeyDown { scancode } => match scancode_to_keycode(scancode) {
            Some(keycode) => Injection::Key { keycode, pressed: true },
            None => Injection::Dropped { scancode },
        },
        InputEvent::KeyUp { scancode } => match scancode_to_keycode(scancode) {
            Some(keycode) => Injection::Key { keycode, pressed: false },
            None => Injection::Dropped { scancode },
        },
        InputEvent::PointerMove { x, y } => Injection::Motion { focus: wm.surface_for(window_id), x, y },
        InputEvent::PointerButton { button, state } => Injection::Button {
            button,
            pressed: match state {
                ButtonState::Pressed => true,
                ButtonState::Released => false,
            },
        },
        InputEvent::Axis { dx, dy } => Injection::Axis { dx, dy },
    }
}

} // verus!

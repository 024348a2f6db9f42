//! Routing of input events received from the viewer to registered windows.
//!
//! Surfaces are named by a 64-bit key that the compositor assigns to each
//! `wl_surface` object it tracks.

pub mod keycodes;

use vstd::prelude::*;

use std::collections::HashMap;

use crate::server::streaming::input::{InputEvent, InputEventHandler};

verus! {

broadcast use vstd::std_specs::hash::group_hash_axioms;

/// Keeps the mapping between window ids and the surfaces they stand for,
/// in both directions.
#[derive(Debug)]
pub struct InputProcessor {
    window_to_surface: HashMap<u32, u64>,
    surface_to_window: HashMap<u64, u32>,
}

impl InputProcessor {
    /// Window id → surface key.
    pub closed spec fn windows(self) -> Map<u32, u64> {
        self.window_to_surface@
    }

    /// Surface key → window id.
    pub closed spec fn surfaces(self) -> Map<u64, u32> {
        self.surface_to_window@
    }

    /// The two maps are inverse to each other.
    pub open spec fn is_bijection(self) -> bool {
        &&& forall|w: u32| #[trigger] self.windows().contains_key(w)
            ==> self.surfaces().contains_key(self.windows()[w]) && self.surfaces()[self.windows()[w]] == w
        &&& forall|s: u64| #[trigger] self.surfaces().contains_key(s)
            ==> self.windows().contains_key(self.surfaces()[s]) && self.windows()[self.surfaces()[s]] == s
    }

    /// A processor with no registered windows.
    pub fn new() -> (p: Self)
        ensures
            p.windows() == Map::<u32, u64>::empty(),
            p.surfaces() == Map::<u64, u32>::empty(),
    {
        Self { window_to_surface: HashMap::new(), surface_to_window: HashMap::new() }
    }

    /// Register a window-to-surface mapping (in both directions).
    pub fn register_window(&mut self, window_id: u32, surface_id: u64)
        ensures
            final(self).windows() == old(self).windows().insert(window_id, surface_id),
            final(self).surfaces() == old(self).surfaces().insert(surface_id, window_id),
    {
        self.window_to_surface.insert(window_id, surface_id);
        self.surface_to_window.insert(surface_id, window_id);
    }

    /// Unregister a window and the surface it maps to; unknown ids change nothing.
    pub fn unregister_window(&mut self, window_id: u32)
        ensures
            old(self).windows().contains_key(window_id) ==> {
                &&& final(self).windows() == old(self).windows().remove(window_id)
                &&& final(self).surfaces() == old(self).surfaces().remove(old(self).windows()[window_id])
            },
            !old(self).windows().contains_key(window_id) ==> final(self).windows() == old(self).windows()
                && final(self).surfaces() == old(self).surfaces(),
    {
        match self.window_to_surface.remove(&window_id) {
            Some(surface_id) => {
                self.surface_to_window.remove(&surface_id);
            },
            None => {},
        }
    }

    /// Unregister a surface and the window it maps to; unknown surfaces change nothing.
    pub fn unregister_surface(&mut self, surface_id: u64)
        ensures
            old(self).surfaces().contains_key(surface_id) ==> {
                &&& final(self).surfaces() == old(self).surfaces().remove(surface_id)
                &&& final(self).windows() == old(self).windows().remove(old(self).surfaces()[surface_id])
            },
            !old(self).surfaces().contains_key(surface_id) ==> final(self).windows() == old(self).windows()
                && final(self).surfaces() == old(self).surfaces(),
    {
        match self.surface_to_window.remove(&surface_id) {
            Some(window_id) => {
                self.window_to_surface.remove(&window_id);
            },
            None => {},
        }
    }

    /// The surface registered for a window id.
    pub fn get_surface(&self, window_id: u32) -> (r: Option<u64>)
        ensures
            r == (if self.windows().contains_key(window_id) {
                Some(self.windows()[window_id])
            } else {
                None
            }),
    {
        match self.window_to_surface.get(&window_id) {
            Some(s) => Some(*s),
            None => None,
        }
    }

    /// The window id registered for a surface.
    pub fn get_window_id(&self, surface_id: u64) -> (r: Option<u32>)
        ensures
            r == (if self.surfaces().contains_key(surface_id) {
                Some(self.surfaces()[surface_id])
            } else {
                None
            }),
    {
        match self.surface_to_window.get(&surface_id) {
            Some(w) => Some(*w),
            None => None,
        }
    }

    /// Number of registered windows.
    pub fn window_count(&self) -> (n: usize)
        ensures
            n == self.windows().len(),
    {
        self.window_to_surface.len()
    }

    /// Whether a window id is registered.
    pub fn has_window(&self, window_id: u32) -> (b: bool)
        ensures
            b == self.windows().contains_key(window_id),
    {
        self.window_to_surface.contains_key(&window_id)
    }

    /// Decide whether an input event reaches its window: it does exactly
    /// when the window is registered. The mappings are left unchanged.
    pub fn accept_input_event(&self, window_id: u32, event: &InputEvent) -> (accepted: bool)
        ensures
            accepted == self.windows().contains_key(window_id),
    {
        self.has_window(window_id)
    }
}

impl Default for InputProcessor {
    fn default() -> (p: Self)
        ensures
            p.windows() == Map::<u32, u64>::empty(),
            p.surfaces() == Map::<u64, u32>::empty(),
    {
        Self::new()
    }
}

impl InputEventHandler for InputProcessor {
    /// An event for a registered window reaches it; one for an unknown
    /// window is dropped. Either way the mappings stay as they are.
    fn handle_input_event(&mut self, window_id: u32, event: InputEvent)
        ensures
            final(self).windows() == old(self).windows(),
            final(self).surfaces() == old(self).surfaces(),
    {
        let _accepted = self.accept_input_event(window_id, &event);
    }
}

/// Registering a window and surface that are both new keeps the two maps
/// inverse to each other; so do both kinds of unregistering.
pub proof fn lemma_registration_keeps_bijection(
    before: InputProcessor,
    after_register: InputProcessor,
    window_id: u32,
    surface_id: u64,
)
    requires
        before.is_bijection(),
        !before.windows().contains_key(window_id),
        !before.surfaces().contains_key(surface_id),
        after_register.windows() == before.windows().insert(window_id, surface_id),
        after_register.surfaces() == before.surfaces().insert(surface_id, window_id),
    ensures
        after_register.is_bijection(),
{
}

/// Unregistering a window keeps the two maps inverse to each other.
pub proof fn lemma_unregister_window_keeps_bijection(before: InputProcessor, after: InputProcessor, window_id: u32)
    requires
        before.is_bijection(),
        before.windows().contains_key(window_id),
        after.windows() == before.windows().remove(window_id),
        after.surfaces() == before.surfaces().remove(before.windows()[window_id]),
    ensures
        after.is_bijection(),
{
    assert forall|s: u64| #[trigger] after.surfaces().contains_key(s) implies after.windows().contains_key(
        after.surfaces()[s],
    ) && after.windows()[after.surfaces()[s]] == s by {
        assert(before.surfaces().contains_key(s));
        assert(before.surfaces()[s] != window_id);
    }
}

/// Unregistering a surface keeps the two maps inverse to each other.
pub proof fn lemma_unregister_surface_keeps_bijection(before: InputProcessor, after: InputProcessor, surface_id: u64)
    requires
        before.is_bijection(),
        before.surfaces().contains_key(surface_id),
        after.surfaces() == before.surfaces().remove(surface_id),
        after.windows() == before.windows().remove(before.surfaces()[surface_id]),
    ensures
        after.is_bijection(),
{
    assert forall|w: u32| #[trigger] after.windows().contains_key(w) implies after.surfaces().contains_key(
        after.windows()[w],
    ) && after.surfaces()[after.windows()[w]] == w by {
        assert(before.windows().contains_key(w));
        assert(before.windows()[w] != surface_id);
    }
}

} // verus!

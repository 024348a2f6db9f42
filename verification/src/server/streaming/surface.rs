//! Surface tracking for multi-surface streaming: each surface (by its
//! 64-bit key) gets a unique window id, starting at 1.

use vstd::prelude::*;

use std::collections::HashMap;

verus! {

broadcast use vstd::std_specs::hash::group_hash_axioms;

/// Maps surfaces to stable window ids and back.
#[derive(Debug)]
pub struct SurfaceTracker {
    next_window_id: u32,
    surface_to_window: HashMap<u64, u32>,
    window_to_surface: HashMap<u32, u64>,
}

impl SurfaceTracker {
    /// Surface key → window id.
    pub closed spec fn windows_of(self) -> Map<u64, u32> {
        self.surface_to_window@
    }

    /// Window id → surface key.
    pub closed spec fn surfaces_of(self) -> Map<u32, u64> {
        self.window_to_surface@
    }

    /// The id the next new surface gets.
    pub closed spec fn next_id(self) -> u32 {
        self.next_window_id
    }

    /// The tracker's invariant: the two maps are inverse, and every
    /// allocated id lies in `1..next_id`.
    pub open spec fn wf(self) -> bool {
        &&& 1 <= self.next_id()
        &&& forall|s: u64| #[trigger] self.windows_of().contains_key(s) ==> {
            &&& self.surfaces_of().contains_key(self.windows_of()[s])
            &&& self.surfaces_of()[self.windows_of()[s]] == s
            &&& 1 <= self.windows_of()[s] < self.next_id()
        }
        &&& forall|w: u32| #[trigger] self.surfaces_of().contains_key(w) ==> {
            &&& self.windows_of().contains_key(self.surfaces_of()[w])
            &&& self.windows_of()[self.surfaces_of()[w]] == w
        }
    }

    /// A tracker with no surfaces; ids start at 1.
    pub fn new() -> (t: Self)
        ensures
            t.wf(),
            t.windows_of() == Map::<u64, u32>::empty(),
            t.surfaces_of() == Map::<u32, u64>::empty(),
            t.next_id() == 1,
    {
        Self { next_window_id: 1, surface_to_window: HashMap::new(), window_to_surface: HashMap::new() }
    }

    /// The window id of a surface: its existing one, or a new one (the
    /// next id, then recorded both ways).
    pub fn allocate_window_id(&mut self, surface_id: u64) -> (window_id: u32)
        requires
            old(self).wf(),
            old(self).next_id() < u32::MAX,
        ensures
            final(self).wf(),
            old(self).windows_of().contains_key(surface_id) ==> {
                &&& window_id == old(self).windows_of()[surface_id]
                &&& final(self).windows_of() == old(self).windows_of()
                &&& final(self).surfaces_of() == old(self).surfaces_of()
                &&& final(self).next_id() == old(self).next_id()
            },
            !old(self).windows_of().contains_key(surface_id) ==> {
                &&& window_id == old(self).next_id()
                &&& final(self).windows_of() == old(self).windows_of().insert(surface_id, window_id)
                &&& final(self).surfaces_of() == old(self).surfaces_of().insert(window_id, surface_id)
                &&& final(self).next_id() == old(self).next_id() + 1
            },
    {
        if let Some(window_id) = self.get_window_id(surface_id) {
            return window_id;
        }
        let window_id = self.next_window_id;
        self.next_window_id = self.next_window_id + 1;
        let ghost o = *old(self);
        proof {
            assert(!o.surfaces_of().contains_key(window_id)) by {
                if o.surfaces_of().contains_key(window_id) {
                    let s = o.surfaces_of()[window_id];
                    assert(o.windows_of().contains_key(s));
                }
            }
        }
        self.surface_to_window.insert(surface_id, window_id);
        self.window_to_surface.insert(window_id, surface_id);
        proof {
            assert forall|s: u64| #[trigger] self.windows_of().contains_key(s) implies {
                &&& self.surfaces_of().contains_key(self.windows_of()[s])
                &&& self.surfaces_of()[self.windows_of()[s]] == s
                &&& 1 <= self.windows_of()[s] < self.next_id()
            } by {
                if s != surface_id {
                    assert(o.windows_of().contains_key(s));
                }
            }
            assert forall|w: u32| #[trigger] self.surfaces_of().contains_key(w) implies {
                &&& self.windows_of().contains_key(self.surfaces_of()[w])
                &&& self.windows_of()[self.surfaces_of()[w]] == w
            } by {
                if w != window_id {
                    assert(o.surfaces_of().contains_key(w));
                    assert(o.surfaces_of()[w] != surface_id);
                }
            }
        }
        window_id
    }

    /// The window id of a surface, if tracked.
    pub fn get_window_id(&self, surface_id: u64) -> (r: Option<u32>)
        ensures
            r == (if self.windows_of().contains_key(surface_id) {
                Some(self.windows_of()[surface_id])
            } else {
                None
            }),
    {
        match self.surface_to_window.get(&surface_id) {
            Some(w) => Some(*w),
            None => None,
        }
    }

    /// The surface of a window id, if tracked.
    pub fn get_surface_id(&self, window_id: u32) -> (r: Option<u64>)
        ensures
            r == (if self.surfaces_of().contains_key(window_id) {
                Some(self.surfaces_of()[window_id])
            } else {
                None
            }),
    {
        match self.window_to_surface.get(&window_id) {
            Some(s) => Some(*s),
            None => None,
        }
    }

    /// Stop tracking a surface, returning its window id if it was tracked.
    pub fn remove_surface(&mut self, surface_id: u64) -> (r: Option<u32>)
        requires
            old(self).wf(),
        ensures
            final(self).wf(),
            final(self).next_id() == old(self).next_id(),
            old(self).windows_of().contains_key(surface_id) ==> {
                &&& r == Some(old(self).windows_of()[surface_id])
                &&& final(self).windows_of() == old(self).windows_of().remove(surface_id)
                &&& final(self).surfaces_of() == old(self).surfaces_of().remove(old(self).windows_of()[surface_id])
            },
            !old(self).windows_of().contains_key(surface_id) ==> {
                &&& r is None
                &&& final(self).windows_of() == old(self).windows_of()
                &&& final(self).surfaces_of() == old(self).surfaces_of()
            },
    {
        let window_id = match self.surface_to_window.remove(&surface_id) {
            Some(w) => w,
            None => {
                assert(self.windows_of() =~= old(self).windows_of());
                assert(self.surfaces_of() == old(self).surfaces_of());
                assert(self.next_id() == old(self).next_id());
                assert(self.wf());
                return None;
            },
        };
        self.window_to_surface.remove(&window_id);
        proof {
            let o = *old(self);
            assert forall|s: u64| #[trigger] self.windows_of().contains_key(s) implies {
                &&& self.surfaces_of().contains_key(self.windows_of()[s])
                &&& self.surfaces_of()[self.windows_of()[s]] == s
                &&& 1 <= self.windows_of()[s] < self.next_id()
            } by {
                assert(o.windows_of().contains_key(s));
                assert(o.windows_of()[s] != window_id);
            }
            assert forall|w: u32| #[trigger] self.surfaces_of().contains_key(w) implies {
                &&& self.windows_of().contains_key(self.surfaces_of()[w])
                &&& self.windows_of()[self.surfaces_of()[w]] == w
            } by {
                assert(o.surfaces_of().contains_key(w));
                assert(o.surfaces_of()[w] != surface_id);
            }
        }
        Some(window_id)
    }

    /// A copy of all surface → window id mappings.
    pub fn get_all_mappings(&self) -> (m: HashMap<u64, u32>)
        ensures
            m@ == self.windows_of(),
    {
        self.surface_to_window.clone()
    }

    /// Number of tracked surfaces.
    pub fn surface_count(&self) -> (n: usize)
        ensures
            n == self.windows_of().len(),
    {
        self.surface_to_window.len()
    }
}

impl Default for SurfaceTracker {
    fn default() -> (t: Self)
        ensures
            t.wf(),
            t.windows_of() == Map::<u64, u32>::empty(),
            t.surfaces_of() == Map::<u32, u64>::empty(),
            t.next_id() == 1,
    {
        Self::new()
    }
}

/// Window ids are never handed out twice: a newly allocated id is unused
/// by every tracked surface.
pub proof fn lemma_fresh_id_unused(t: SurfaceTracker, s: u64)
    requires
        t.wf(),
        t.windows_of().contains_key(s),
    ensures
        t.windows_of()[s] != t.next_id(),
{
}

} // verus!

//! Viewer-side window tracking, by the compositor's window ids, from the
//! window events it sends.

use vstd::prelude::*;

use std::collections::HashMap;

use crate::protocol::message::{WindowEventKind, WindowEventKindV};
use vstd::std_specs::iter::IteratorSpec;

verus! {

broadcast use vstd::std_specs::hash::group_hash_axioms;

/// A window the compositor announced.
#[derive(Debug, Clone)]
pub struct ViewerWindow {
    pub window_id: u64,
    pub width: u32,
    pub height: u32,
    pub title: String,
}

/// Mathematical value of a [`ViewerWindow`].
pub struct ViewerWindowV {
    pub window_id: u64,
    pub width: u32,
    pub height: u32,
    pub title: Seq<char>,
}

impl View for ViewerWindow {
    type V = ViewerWindowV;

    open spec fn view(&self) -> ViewerWindowV {
        ViewerWindowV { window_id: self.window_id, width: self.width, height: self.height, title: self.title@ }
    }
}

/// The windows after a window event: `Created` adds (or replaces) the
/// window, `Destroyed` removes it, `Resized` updates a known window's size,
/// focus changes leave the windows as they are.
pub open spec fn apply_event(ws: Map<u64, ViewerWindowV>, id: u64, e: WindowEventKindV) -> Map<u64, ViewerWindowV> {
    match e {
        WindowEventKindV::Created { width, height, title } => ws.insert(
            id,
            ViewerWindowV { window_id: id, width, height, title },
        ),
        WindowEventKindV::Destroyed => ws.remove(id),
        WindowEventKindV::Resized { width, height } => if ws.contains_key(id) {
            ws.insert(id, ViewerWindowV { width, height, ..ws[id] })
        } else {
            ws
        },
        WindowEventKindV::Focused | WindowEventKindV::Unfocused => ws,
    }
}

/// Tracks the compositor's windows and the native window handle of each.
pub struct ViewerWindowManager {
    windows: HashMap<u64, ViewerWindow>,
    hwnds: HashMap<u64, isize>,
}

impl ViewerWindowManager {
    /// Window id → window.
    pub closed spec fn windows(self) -> Map<u64, ViewerWindowV> {
        self.windows@.map_values(|w: ViewerWindow| w@)
    }

    /// Window id → native window handle.
    pub closed spec fn handles(self) -> Map<u64, isize> {
        self.hwnds@
    }

    /// No windows, no handles.
    pub fn new() -> (m: Self)
        ensures
            m.windows() == Map::<u64, ViewerWindowV>::empty(),
            m.handles() == Map::<u64, isize>::empty(),
    {
        let m = Self { windows: HashMap::new(), hwnds: HashMap::new() };
        assert(m.windows() =~= Map::<u64, ViewerWindowV>::empty());
        m
    }

    /// Record the native handle backing a window.
    pub fn set_hwnd(&mut self, window_id: u64, hwnd: isize)
        ensures
            final(self).handles() == old(self).handles().insert(window_id, hwnd),
            final(self).windows() == old(self).windows(),
    {
        self.hwnds.insert(window_id, hwnd);
    }

    /// The native handle backing a window.
    pub fn hwnd_for(&self, window_id: u64) -> (r: Option<isize>)
        ensures
            r == (if self.handles().contains_key(window_id) {
                Some(self.handles()[window_id])
            } else {
                None
            }),
    {
        match self.hwnds.get(&window_id) {
            Some(h) => Some(*h),
            None => None,
        }
    }

    /// Forget the native handle backing a window.
    pub fn remove_hwnd(&mut self, window_id: u64)
        ensures
            final(self).handles() == old(self).handles().remove(window_id),
            final(self).windows() == old(self).windows(),
    {
        self.hwnds.remove(&window_id);
    }

    /// Apply a window event from the compositor.
    pub fn handle_event(&mut self, window_id: u64, event: &WindowEventKind)
        ensures
            final(self).windows() == apply_event(old(self).windows(), window_id, event@),
            final(self).handles() == old(self).handles(),
    {
        let ghost before = self.windows@;
        match event {
            WindowEventKind::Created { width, height, title } => {
                let w = ViewerWindow { window_id, width: *width, height: *height, title: title.clone() };
                self.windows.insert(window_id, w);
                assert(self.windows() =~= apply_event(old(self).windows(), window_id, event@));
            },
            WindowEventKind::Destroyed => {
                self.windows.remove(&window_id);
                assert(self.windows() =~= apply_event(old(self).windows(), window_id, event@));
            },
            WindowEventKind::Resized { width, height } => {
                let found = match self.windows.get(&window_id) {
                    Some(win) => Some(
                        ViewerWindow {
                            window_id: win.window_id,
                            width: *width,
                            height: *height,
                            title: win.title.clone(),
                        },
                    ),
                    None => None,
                };
                if let Some(w) = found {
                    self.windows.insert(window_id, w);
                }
                assert(self.windows() =~= apply_event(old(self).windows(), window_id, event@));
            },
            WindowEventKind::Focused | WindowEventKind::Unfocused => {},
        }
    }

    /// Number of tracked windows.
    pub fn window_count(&self) -> (n: usize)
        ensures
            n == self.windows().len(),
    {
        assert(self.windows().dom() =~= self.windows@.dom());
        self.windows.len()
    }

    /// The tracked window with id `id`.
    pub fn get(&self, id: u64) -> (r: Option<&ViewerWindow>)
        ensures
            match r {
                Some(w) => self.windows().contains_key(id) && w@ == self.windows()[id],
                None => !self.windows().contains_key(id),
            },
    {
        self.windows.get(&id)
    }

    /// The ids of all tracked windows, each once, in no particular order.
    pub fn window_ids(&self) -> (ids: Vec<u64>)
        ensures
            ids@.to_set() == self.windows().dom(),
            ids@.no_duplicates(),
    {
        let mut ids: Vec<u64> = Vec::new();
        let ghost ks: Seq<&u64> = vstd::std_specs::hash::spec_keys_iter(&self.windows).remaining();
        for k in it: self.windows.keys()
            invariant
                it.seq() == ks,
                ids@.len() == it.index(),
                forall|i: int| 0 <= i < it.index() ==> ids@[i] == *ks[i],
        {
            ids.push(*k);
        }
        assert(ids@.len() == ks.len());
        assert(ids@ =~= ks.unref());
        assert(self.windows().dom() =~= self.windows@.dom());
        ids
    }
}

impl Default for ViewerWindowManager {
    fn default() -> (m: Self)
        ensures
            m.windows() == Map::<u64, ViewerWindowV>::empty(),
            m.handles() == Map::<u64, isize>::empty(),
    {
        Self::new()
    }
}

} // verus!

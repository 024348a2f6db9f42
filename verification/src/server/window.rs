//! Window manager: tracks xdg and legacy wl_shell toplevels, assigns window
//! ids, decides mapping and focus.
//!
//! A toplevel is only mapped (visible to viewers) after the client has
//! acked its initial configure and committed a buffer. Mapped windows are
//! announced to viewers with a `Created` window event; the focused window
//! carries the xdg `Activated` state. Surfaces are named by the 64-bit key
//! the compositor assigns to each `wl_surface`; the protocol objects behind
//! a key are the compositor's, which carries out the [`ShellRequest`]s that
//! the manager's decisions produce.

use vstd::prelude::*;

use std::collections::HashMap;

use crate::protocol::message::{WindowEventKind, WindowEventKindV};

verus! {

broadcast use vstd::std_specs::hash::group_hash_axioms;

/// Which shell protocol created a window.
#[derive(Debug, Clone, Copy, PartialEq, Eq, Structural)]
pub enum ShellKind {
    /// An xdg-shell toplevel.
    Xdg,
    /// A legacy wl_shell toplevel.
    Legacy,
}

/// A tracked toplevel window.
#[derive(Debug)]
pub struct Window {
    /// Stable id assigned by the window manager.
    pub window_id: u64,
    /// Which shell protocol created this window.
    pub kind: ShellKind,
    /// Key of the underlying `wl_surface`.
    pub surface_id: u64,
    /// Last client-set title (empty until the client sends one).
    pub title: String,
    /// Last committed buffer width.
    pub width: u32,
    /// Last committed buffer height.
    pub height: u32,
    /// True once the window has acked its initial configure and committed a buffer.
    pub mapped: bool,
    /// True once the client has acked at least one configure (legacy
    /// windows are pre-acked).
    pub acked: bool,
}

/// Mathematical value of a [`Window`].
pub struct WindowV {
    pub window_id: u64,
    pub kind: ShellKind,
    pub surface_id: u64,
    pub title: Seq<char>,
    pub width: u32,
    pub height: u32,
    pub mapped: bool,
    pub acked: bool,
}

impl View for Window {
    type V = WindowV;

    open spec fn view(&self) -> WindowV {
        WindowV {
            window_id: self.window_id,
            kind: self.kind,
            surface_id: self.surface_id,
            title: self.title@,
            width: self.width,
            height: self.height,
            mapped: self.mapped,
            acked: self.acked,
        }
    }
}

/// A protocol request the compositor sends on the manager's behalf.
#[derive(Debug, Clone, Copy, PartialEq, Eq, Structural)]
pub enum ShellRequest {
    /// Set (`true`) or clear the xdg `Activated` state of a toplevel, then
    /// send it a configure.
    SetActivated { window_id: u64, surface_id: u64, activated: bool },
    /// Send the xdg `close` event.
    Close { window_id: u64, surface_id: u64 },
    /// Ask the window for a new size: an xdg configure with that pending
    /// size, or a wl_shell configure for legacy windows.
    Configure { window_id: u64, surface_id: u64, kind: ShellKind, width: u32, height: u32 },
}

/// Whether some window in `ws` has id `id`.
pub open spec fn has_id(ws: Seq<WindowV>, id: u64) -> bool {
    exists|i: int| 0 <= i < ws.len() && (#[trigger] ws[i]).window_id == id
}

/// The position of the window with id `id` in `ws` (meaningful when `has_id`).
pub open spec fn index_of(ws: Seq<WindowV>, id: u64) -> int {
    choose|i: int| 0 <= i < ws.len() && (#[trigger] ws[i]).window_id == id
}

/// No two windows share an id.
pub open spec fn ids_distinct(ws: Seq<WindowV>) -> bool {
    forall|i: int, j: int|
        0 <= i < ws.len() && 0 <= j < ws.len() && i != j ==> (#[trigger] ws[i]).window_id
            != (#[trigger] ws[j]).window_id
}

/// Number of mapped windows in `ws`.
pub open spec fn mapped_count(ws: Seq<WindowV>) -> nat
    decreases ws.len(),
{
    if ws.len() == 0 {
        0
    } else {
        mapped_count(ws.drop_last()) + (if ws.last().mapped { 1nat } else { 0nat })
    }
}

/// Ids of the mapped windows in `ws`, in order.
pub open spec fn mapped_ids(ws: Seq<WindowV>) -> Seq<u64>
    decreases ws.len(),
{
    if ws.len() == 0 {
        Seq::empty()
    } else if ws.last().mapped {
        mapped_ids(ws.drop_last()).push(ws.last().window_id)
    } else {
        mapped_ids(ws.drop_last())
    }
}

/// A freshly registered, not yet mapped window.
pub open spec fn fresh_window(id: u64, kind: ShellKind, surface_id: u64, acked: bool) -> WindowV {
    WindowV {
        window_id: id,
        kind,
        surface_id,
        title: Seq::empty(),
        width: 0,
        height: 0,
        mapped: false,
        acked,
    }
}

/// The activation request for a window, sent only to xdg toplevels.
pub open spec fn activation(w: WindowV, activated: bool) -> Seq<ShellRequest> {
    if w.kind == ShellKind::Xdg {
        seq![ShellRequest::SetActivated { window_id: w.window_id, surface_id: w.surface_id, activated }]
    } else {
        Seq::empty()
    }
}

/// Tracks toplevels, their mapping and the keyboard focus.
#[derive(Debug)]
pub struct WindowManager {
    windows: Vec<Window>,
    surface_to_window: HashMap<u64, u64>,
    next_id: u64,
    focused: Option<u64>,
    pending_events: Vec<(u64, WindowEventKind)>,
}

impl WindowManager {
    /// The tracked windows, in registration order.
    pub closed spec fn windows(self) -> Seq<WindowV> {
        self.windows@.map_values(|w: Window| w@)
    }

    /// Surface key → window id.
    pub closed spec fn surface_map(self) -> Map<u64, u64> {
        self.surface_to_window@
    }

    /// The id the next new window gets.
    pub closed spec fn next_id(self) -> u64 {
        self.next_id
    }

    /// The focused window id.
    pub closed spec fn focus(self) -> Option<u64> {
        self.focused
    }

    /// Window events queued for viewers, oldest first.
    pub closed spec fn pending(self) -> Seq<(u64, WindowEventKindV)> {
        self.pending_events@.map_values(|e: (u64, WindowEventKind)| (e.0, e.1@))
    }

    /// The manager's invariant: ids are distinct and below `next_id`; every
    /// surface maps to a tracked window on that surface; focus names a
    /// tracked window; a mapped window has acked a configure.
    pub open spec fn wf(self) -> bool {
        &&& ids_distinct(self.windows())
        &&& 1 <= self.next_id()
        &&& forall|i: int| 0 <= i < self.windows().len() ==> (#[trigger] self.windows()[i]).window_id
            < self.next_id()
        &&& forall|s: u64| #[trigger] self.surface_map().contains_key(s) ==> has_id(
            self.windows(),
            self.surface_map()[s],
        ) && self.windows()[index_of(self.windows(), self.surface_map()[s])].surface_id == s
        &&& self.focus() matches Some(f) ==> has_id(self.windows(), f)
        &&& forall|i: int| 0 <= i < self.windows().len() && (#[trigger] self.windows()[i]).mapped
            ==> self.windows()[i].acked
    }

    /// Position of window `id`, if tracked.
    fn find(&self, id: u64) -> (r: Option<usize>)
        requires
            ids_distinct(self.windows()),
        ensures
            r matches Some(i) ==> i < self.windows().len() && self.windows()[i as int].window_id == id
                && i == index_of(self.windows(), id),
            r is None ==> !has_id(self.windows(), id),
    {
        let mut i: usize = 0;
        while i < self.windows.len()
            invariant
                i <= self.windows@.len(),
                ids_distinct(self.windows()),
                forall|j: int| 0 <= j < i ==> (#[trigger] self.windows()[j]).window_id != id,
            decreases self.windows@.len() - i,
        {
            if self.windows[i].window_id == id {
                proof {
                    lemma_index_of_unique(self.windows(), id, i as int);
                }
                return Some(i);
            }
            i = i + 1;
        }
        None
    }

    /// Create an empty window manager.
    pub fn new() -> (m: Self)
        ensures
            m.wf(),
            m.windows() == Seq::<WindowV>::empty(),
            m.surface_map() == Map::<u64, u64>::empty(),
            m.next_id() == 1,
            m.focus() is None,
            m.pending() == Seq::<(u64, WindowEventKindV)>::empty(),
    {
        let m = Self {
            windows: Vec::new(),
            surface_to_window: HashMap::new(),
            next_id: 1,
            focused: None,
            pending_events: Vec::new(),
        };
        assert(m.windows() =~= Seq::<WindowV>::empty());
        assert(m.pending() =~= Seq::<(u64, WindowEventKindV)>::empty());
        m
    }
}

/// `after` is `before` with a legacy wl_shell toplevel registered on
/// `surface_id`: a tracked surface keeps its window id and its window
/// starts over (pre-acked, unmapped, untitled); an untracked one gets a
/// new window with the next id. Focus and queued events are unchanged.
pub open spec fn legacy_registered(before: WindowManager, after: WindowManager, surface_id: u64) -> bool {
    &&& before.surface_map().contains_key(surface_id) ==> {
        let id = before.surface_map()[surface_id];
        &&& after.windows() == before.windows().update(
            index_of(before.windows(), id),
            fresh_window(id, ShellKind::Legacy, surface_id, true),
        )
        &&& after.next_id() == before.next_id()
        &&& after.surface_map() == before.surface_map()
    }
    &&& !before.surface_map().contains_key(surface_id) ==> {
        &&& after.windows() == before.windows().push(
            fresh_window(before.next_id(), ShellKind::Legacy, surface_id, true),
        )
        &&& after.next_id() == before.next_id() + 1
        &&& after.surface_map() == before.surface_map().insert(surface_id, before.next_id())
    }
    &&& after.focus() == before.focus()
    &&& after.pending() == before.pending()
}

/// `after` is `before` with the title of the window on `surface_id` set to
/// `title`; an untracked surface changes nothing.
pub open spec fn title_set(before: WindowManager, after: WindowManager, surface_id: u64, title: Seq<char>) -> bool {
    &&& before.surface_map().contains_key(surface_id) ==> {
        let i = index_of(before.windows(), before.surface_map()[surface_id]);
        after.windows() == before.windows().update(i, WindowV { title, ..before.windows()[i] })
    }
    &&& !before.surface_map().contains_key(surface_id) ==> after.windows() == before.windows()
    &&& after.surface_map() == before.surface_map()
    &&& after.next_id() == before.next_id()
    &&& after.focus() == before.focus()
    &&& after.pending() == before.pending()
}

impl WindowManager {
    /// Register a new xdg toplevel on `surface_id`. It gets the next id and
    /// is not mapped yet: mapping happens on the first commit after the
    /// client has acked its initial configure.
    pub fn register(&mut self, surface_id: u64)
        requires
            old(self).wf(),
            old(self).next_id() < u64::MAX,
        ensures
            final(self).wf(),
            final(self).windows() == old(self).windows().push(
                fresh_window(old(self).next_id(), ShellKind::Xdg, surface_id, false),
            ),
            final(self).surface_map() == old(self).surface_map().insert(surface_id, old(self).next_id()),
            final(self).next_id() == old(self).next_id() + 1,
            final(self).focus() == old(self).focus(),
            final(self).pending() == old(self).pending(),
    {
        let window_id = self.next_id;
        self.next_id = self.next_id + 1;
        let w = Window {
            window_id,
            kind: ShellKind::Xdg,
            surface_id,
            title: String::new(),
            width: 0,
            height: 0,
            mapped: false,
            acked: false,
        };
        self.windows.push(w);
        self.surface_to_window.insert(surface_id, window_id);
        proof {
            let ws = old(self).windows();
            let nw = fresh_window(window_id, ShellKind::Xdg, surface_id, false);
            assert(self.windows() =~= ws.push(nw));
            lemma_push_fresh(ws, nw, old(self).next_id());
            self.lemma_wf_after_append(*old(self), nw);
        }
    }

    /// Register a legacy wl_shell toplevel on `surface_id`. It is pre-acked
    /// (wl_shell has no ack_configure) and unmapped; a surface that is
    /// already tracked keeps its window id, and its window starts over.
    pub fn register_legacy_shell(&mut self, surface_id: u64)
        requires
            old(self).wf(),
            old(self).next_id() < u64::MAX,
        ensures
            final(self).wf(),
            legacy_registered(*old(self), *final(self), surface_id),
    {
        let w_new = |window_id: u64| -> (w: Window)
            ensures
                w@ == fresh_window(window_id, ShellKind::Legacy, surface_id, true),
            {
                Window {
                    window_id,
                    kind: ShellKind::Legacy,
                    surface_id,
                    title: String::new(),
                    width: 0,
                    height: 0,
                    mapped: false,
                    acked: true,
                }
            };
        match self.surface_to_window.get(&surface_id) {
            Some(wid) => {
                let window_id = *wid;
                let i = match self.find(window_id) {
                    Some(i) => i,
                    None => {
                        assert(false);
                        return;
                    },
                };
                let w = w_new(window_id);
                self.windows.set(i, w);
                proof {
                    let ws = old(self).windows();
                    let nw = fresh_window(window_id, ShellKind::Legacy, surface_id, true);
                    assert(self.windows() =~= ws.update(i as int, nw));
                    self.lemma_wf_after_replace(*old(self), i as int, nw);
                }
            },
            None => {
                let window_id = self.next_id;
                self.next_id = self.next_id + 1;
                let w = w_new(window_id);
                self.windows.push(w);
                self.surface_to_window.insert(surface_id, window_id);
                proof {
                    let ws = old(self).windows();
                    let nw = fresh_window(window_id, ShellKind::Legacy, surface_id, true);
                    assert(self.windows() =~= ws.push(nw));
                    lemma_push_fresh(ws, nw, old(self).next_id());
                    self.lemma_wf_after_append(*old(self), nw);
                }
            },
        }
    }

    /// Mark the window on `surface_id` as having acked a configure;
    /// untracked surfaces change nothing.
    pub fn mark_acked(&mut self, surface_id: u64)
        requires
            old(self).wf(),
        ensures
            final(self).wf(),
            old(self).surface_map().contains_key(surface_id) ==> {
                let i = index_of(old(self).windows(), old(self).surface_map()[surface_id]);
                final(self).windows() == old(self).windows().update(
                    i,
                    WindowV { acked: true, ..old(self).windows()[i] },
                )
            },
            !old(self).surface_map().contains_key(surface_id) ==> final(self).windows() == old(self).windows(),
            final(self).surface_map() == old(self).surface_map(),
            final(self).next_id() == old(self).next_id(),
            final(self).focus() == old(self).focus(),
            final(self).pending() == old(self).pending(),
    {
        if let Some(wid) = self.surface_to_window.get(&surface_id) {
            let window_id = *wid;
            if let Some(i) = self.find(window_id) {
                self.windows[i].acked = true;
                proof {
                    let ws = old(self).windows();
                    let nw = WindowV { acked: true, ..ws[i as int] };
                    assert(self.windows() =~= ws.update(i as int, nw));
                    self.lemma_wf_after_replace(*old(self), i as int, nw);
                }
            }
        }
    }

    /// Update the stored title of the window on `surface_id`; untracked
    /// surfaces change nothing.
    pub fn set_title(&mut self, surface_id: u64, title: String)
        requires
            old(self).wf(),
        ensures
            final(self).wf(),
            title_set(*old(self), *final(self), surface_id, title@),
    {
        if let Some(wid) = self.surface_to_window.get(&surface_id) {
            let window_id = *wid;
            if let Some(i) = self.find(window_id) {
                self.windows[i].title = title;
                proof {
                    let ws = old(self).windows();
                    let nw = WindowV { title: title@, ..ws[i as int] };
                    assert(self.windows() =~= ws.update(i as int, nw));
                    self.lemma_wf_after_replace(*old(self), i as int, nw);
                }
            }
        }
    }

    /// Appending a window with a fresh id, mapping `nw.surface_id` to it and
    /// bumping `next_id` past it keeps the invariant.
    proof fn lemma_wf_after_append(self, before: Self, nw: WindowV)
        requires
            before.wf(),
            nw.window_id == before.next_id(),
            !nw.mapped,
            self.windows() == before.windows().push(nw),
            self.surface_map() == before.surface_map().insert(nw.surface_id, nw.window_id),
            self.next_id() == before.next_id() + 1,
            self.focus() == before.focus(),
            ids_distinct(self.windows()),
        ensures
            self.wf(),
    {
        let ws = before.windows();
        let nws = self.windows();
        assert forall|id: u64| has_id(ws, id) implies has_id(nws, id) && index_of(nws, id) == index_of(ws, id) by {
            let k = index_of(ws, id);
            lemma_index_of_unique(nws, id, k);
        }
        lemma_index_of_unique(nws, nw.window_id, ws.len() as int);
        assert forall|s: u64| #[trigger] self.surface_map().contains_key(s) implies has_id(
            nws,
            self.surface_map()[s],
        ) && nws[index_of(nws, self.surface_map()[s])].surface_id == s by {
            if s != nw.surface_id {
                assert(before.surface_map().contains_key(s));
            }
        }
    }

    /// Replacing the window at `i` by one with the same id, surface and (if
    /// mapped) acked state keeps the invariant.
    proof fn lemma_wf_after_replace(self, before: Self, i: int, nw: WindowV)
        requires
            before.wf(),
            0 <= i < before.windows().len(),
            nw.window_id == before.windows()[i].window_id,
            nw.surface_id == before.windows()[i].surface_id,
            nw.mapped ==> nw.acked,
            self.windows() == before.windows().update(i, nw),
            self.surface_map() == before.surface_map(),
            self.next_id() == before.next_id(),
            self.focus() == before.focus(),
        ensures
            self.wf(),
    {
        let ws = before.windows();
        let nws = self.windows();
        assert(ids_distinct(nws)) by {
            assert forall|a: int, b: int|
                0 <= a < nws.len() && 0 <= b < nws.len() && a != b implies (#[trigger] nws[a]).window_id
                != (#[trigger] nws[b]).window_id by {
                assert(ws[a].window_id != ws[b].window_id);
            }
        }
        assert forall|id: u64| has_id(ws, id) implies has_id(nws, id) && index_of(nws, id) == index_of(ws, id) by {
            let k = index_of(ws, id);
            lemma_index_of_unique(nws, id, k);
        }
        assert forall|k: int| 0 <= k < nws.len() implies (#[trigger] nws[k]).window_id < self.next_id() by {
            assert(ws[k].window_id < before.next_id());
        }
        assert forall|s: u64| #[trigger] self.surface_map().contains_key(s) implies has_id(
            nws,
            self.surface_map()[s],
        ) && nws[index_of(nws, self.surface_map()[s])].surface_id == s by {
            assert(has_id(ws, self.surface_map()[s]));
        }
        if let Some(f) = self.focus() {
            assert(has_id(ws, f));
        }
    }
}

/// The window after a commit of a `width` × `height` buffer: the size is
/// stored, and an acked window becomes mapped.
pub open spec fn committed(w: WindowV, width: u32, height: u32) -> WindowV {
    WindowV { width, height, mapped: w.mapped || w.acked, ..w }
}

/// The events a commit queues: `Resized` for a mapped window whose size
/// changed, `Created` (with the new size and current title) for a window
/// that maps now.
pub open spec fn commit_events(w: WindowV, width: u32, height: u32) -> Seq<(u64, WindowEventKindV)> {
    let resized = w.mapped && (w.width != width || w.height != height);
    let maps = w.acked && !w.mapped;
    (if resized {
        seq![(w.window_id, WindowEventKindV::Resized { width, height })]
    } else {
        Seq::empty()
    }) + (if maps {
        seq![(w.window_id, WindowEventKindV::Created { width, height, title: w.title })]
    } else {
        Seq::empty()
    })
}

impl WindowManager {
    /// A surface committed a `width` × `height` buffer. The window's size is
    /// stored; a mapped window whose size changed queues `Resized`. The first
    /// commit after an ack maps the window and queues `Created`; if nothing
    /// had focus, the window takes it (and an xdg toplevel is activated).
    /// Untracked surfaces change nothing.
    pub fn on_commit(&mut self, surface_id: u64, width: u32, height: u32) -> (reqs: Vec<ShellRequest>)
        requires
            old(self).wf(),
        ensures
            final(self).wf(),
            final(self).surface_map() == old(self).surface_map(),
            final(self).next_id() == old(self).next_id(),
            old(self).surface_map().contains_key(surface_id) ==> {
                let id = old(self).surface_map()[surface_id];
                let i = index_of(old(self).windows(), id);
                let w = old(self).windows()[i];
                let takes_focus = w.acked && !w.mapped && old(self).focus() is None;
                &&& final(self).windows() == old(self).windows().update(i, committed(w, width, height))
                &&& final(self).pending() == old(self).pending() + commit_events(w, width, height)
                &&& final(self).focus() == (if takes_focus { Some(id) } else { old(self).focus() })
                &&& reqs@ == (if takes_focus {
                    activation(committed(w, width, height), true)
                } else {
                    Seq::empty()
                })
            },
            !old(self).surface_map().contains_key(surface_id) ==> {
                &&& final(self).windows() == old(self).windows()
                &&& final(self).pending() == old(self).pending()
                &&& final(self).focus() == old(self).focus()
                &&& reqs@ == Seq::<ShellRequest>::empty()
            },
    {
        let mut reqs: Vec<ShellRequest> = Vec::new();
        let wid = match self.surface_to_window.get(&surface_id) {
            Some(w) => *w,
            None => {
                return reqs;
            },
        };
        let i = match self.find(wid) {
            Some(i) => i,
            None => {
                assert(false);
                return reqs;
            },
        };
        let ghost ws = old(self).windows();
        let ghost w = ws[i as int];
        let resized = self.windows[i].mapped && (self.windows[i].width != width
            || self.windows[i].height != height);
        self.windows[i].width = width;
        self.windows[i].height = height;
        if resized {
            self.pending_events.push((wid, WindowEventKind::Resized { width, height }));
        }
        let ghost p1 = self.pending_events@;
        if self.windows[i].acked && !self.windows[i].mapped {
            self.windows[i].mapped = true;
            if self.focused.is_none() {
                self.focused = Some(wid);
                if self.windows[i].kind == ShellKind::Xdg {
                    reqs.push(
                        ShellRequest::SetActivated {
                            window_id: wid,
                            surface_id: self.windows[i].surface_id,
                            activated: true,
                        },
                    );
                }
            }
            let title = self.windows[i].title.clone();
            self.pending_events.push((wid, WindowEventKind::Created { width, height, title }));
        }
        proof {
            let nw = committed(w, width, height);
            assert(self.windows() =~= ws.update(i as int, nw));
            assert(self.pending() =~= old(self).pending() + commit_events(w, width, height));
            assert(reqs@ =~= (if w.acked && !w.mapped && old(self).focus() is None {
                activation(nw, true)
            } else {
                Seq::empty()
            }));
            self.lemma_wf_after_replace_refocus(*old(self), i as int, nw);
        }
        reqs
    }

    /// Like `lemma_wf_after_replace`, also allowing focus to move to the
    /// replaced window.
    proof fn lemma_wf_after_replace_refocus(self, before: Self, i: int, nw: WindowV)
        requires
            before.wf(),
            0 <= i < before.windows().len(),
            nw.window_id == before.windows()[i].window_id,
            nw.surface_id == before.windows()[i].surface_id,
            nw.mapped ==> nw.acked,
            self.windows() == before.windows().update(i, nw),
            self.surface_map() == before.surface_map(),
            self.next_id() == before.next_id(),
            self.focus() == before.focus() || self.focus() == Some(nw.window_id),
        ensures
            self.wf(),
    {
        let ws = before.windows();
        let nws = self.windows();
        assert(ids_distinct(nws)) by {
            assert forall|a: int, b: int|
                0 <= a < nws.len() && 0 <= b < nws.len() && a != b implies (#[trigger] nws[a]).window_id
                != (#[trigger] nws[b]).window_id by {
                assert(ws[a].window_id != ws[b].window_id);
            }
        }
        assert forall|id: u64| has_id(ws, id) implies has_id(nws, id) && index_of(nws, id) == index_of(ws, id) by {
            let k = index_of(ws, id);
            lemma_index_of_unique(nws, id, k);
        }
        assert forall|k: int| 0 <= k < nws.len() implies (#[trigger] nws[k]).window_id < self.next_id() by {
            assert(ws[k].window_id < before.next_id());
        }
        assert forall|s: u64| #[trigger] self.surface_map().contains_key(s) implies has_id(
            nws,
            self.surface_map()[s],
        ) && nws[index_of(nws, self.surface_map()[s])].surface_id == s by {
            assert(has_id(ws, self.surface_map()[s]));
        }
        lemma_index_of_unique(nws, nw.window_id, i);
        if let Some(f) = self.focus() {
            if f != nw.window_id {
                assert(has_id(ws, f));
            }
        }
    }
}

/// `after` and `reqs` are what destroying the window on `surface_id` makes
/// of `before`: the window and its surface entry go and `Destroyed` is
/// queued; if it had focus, focus moves to the first remaining window (an
/// xdg toplevel is activated), or to none. An untracked surface changes
/// nothing and asks for nothing.
pub open spec fn window_destroyed(
    before: WindowManager,
    after: WindowManager,
    surface_id: u64,
    reqs: Seq<ShellRequest>,
) -> bool {
    &&& after.next_id() == before.next_id()
    &&& before.surface_map().contains_key(surface_id) ==> {
        let id = before.surface_map()[surface_id];
        let rest = before.windows().remove(index_of(before.windows(), id));
        &&& after.windows() == rest
        &&& after.surface_map() == before.surface_map().remove(surface_id)
        &&& after.pending() == before.pending().push((id, WindowEventKindV::Destroyed))
        &&& before.focus() == Some(id) ==> {
            &&& after.focus() == (if rest.len() > 0 {
                Some(rest[0].window_id)
            } else {
                None
            })
            &&& reqs == (if rest.len() > 0 {
                activation(rest[0], true)
            } else {
                Seq::empty()
            })
        }
        &&& before.focus() != Some(id) ==> after.focus() == before.focus() && reqs == Seq::<ShellRequest>::empty()
    }
    &&& !before.surface_map().contains_key(surface_id) ==> {
        &&& after.windows() == before.windows()
        &&& after.surface_map() == before.surface_map()
        &&& after.pending() == before.pending()
        &&& after.focus() == before.focus()
        &&& reqs == Seq::<ShellRequest>::empty()
    }
}

impl WindowManager {
    /// The id of the window on the surface keyed `surface_id`, if tracked.
    pub fn window_for_surface(&self, surface_id: u64) -> (r: Option<u64>)
        ensures
            r == (if self.surface_map().contains_key(surface_id) {
                Some(self.surface_map()[surface_id])
            } else {
                None
            }),
    {
        match self.surface_to_window.get(&surface_id) {
            Some(w) => Some(*w),
            None => None,
        }
    }
}

impl WindowManager {
    /// The window a cursor update targets: the window under the pointer
    /// when the pointer is over a tracked surface, else the focused window;
    /// `None` when neither names one.
    pub fn cursor_window_id(&self, pointer_surface: Option<u64>) -> (r: Option<u64>)
        ensures
            r == (match pointer_surface {
                Some(s) if self.surface_map().contains_key(s) => Some(self.surface_map()[s]),
                _ => self.focus(),
            }),
    {
        let under_pointer = match pointer_surface {
            Some(s) => self.window_for_surface(s),
            None => None,
        };
        match under_pointer {
            Some(w) => Some(w),
            None => self.focused,
        }
    }

    /// Destroy the window on `surface_id`: it stops being tracked and a
    /// `Destroyed` event is queued. If it had focus, focus moves to the
    /// first remaining window (an xdg toplevel is activated), or to none.
    /// Untracked surfaces change nothing.
    pub fn destroy(&mut self, surface_id: u64) -> (reqs: Vec<ShellRequest>)
        requires
            old(self).wf(),
        ensures
            final(self).wf(),
            window_destroyed(*old(self), *final(self), surface_id, reqs@),
    {
        let mut reqs: Vec<ShellRequest> = Vec::new();
        let wid = match self.surface_to_window.remove(&surface_id) {
            Some(w) => w,
            None => {
                assert(self.surface_map() =~= old(self).surface_map());
                assert(reqs@ =~= Seq::<ShellRequest>::empty());
                return reqs;
            },
        };
        let i = match self.find(wid) {
            Some(i) => i,
            None => {
                assert(false);
                return reqs;
            },
        };
        let ghost ws = old(self).windows();
        let _gone = self.windows.remove(i);
        self.pending_events.push((wid, WindowEventKind::Destroyed));
        assert(self.windows() =~= ws.remove(i as int));
        assert(self.pending() =~= old(self).pending().push((wid, WindowEventKindV::Destroyed)));
        if self.focused == Some(wid) {
            if self.windows.len() > 0 {
                self.focused = Some(self.windows[0].window_id);
                if self.windows[0].kind == ShellKind::Xdg {
                    reqs.push(
                        ShellRequest::SetActivated {
                            window_id: self.windows[0].window_id,
                            surface_id: self.windows[0].surface_id,
                            activated: true,
                        },
                    );
                }
            } else {
                self.focused = None;
            }
        }
        proof {
            self.lemma_wf_after_remove(*old(self), surface_id, i as int);
            if old(self).focus() == Some(wid) && self.windows().len() > 0 {
                assert(reqs@ =~= activation(self.windows()[0], true));
            } else {
                assert(reqs@ =~= Seq::<ShellRequest>::empty());
            }
        }
        reqs
    }

    /// Dropping the window on `surface` (at position `i`) and its surface
    /// entry, with focus kept or moved to a remaining window, keeps the
    /// invariant.
    proof fn lemma_wf_after_remove(self, before: Self, surface: u64, i: int)
        requires
            before.wf(),
            before.surface_map().contains_key(surface),
            i == index_of(before.windows(), before.surface_map()[surface]),
            self.windows() == before.windows().remove(i),
            self.surface_map() == before.surface_map().remove(surface),
            self.next_id() == before.next_id(),
            before.focus() != Some(before.surface_map()[surface]) ==> self.focus() == before.focus(),
            before.focus() == Some(before.surface_map()[surface]) ==> self.focus() == (if self.windows().len()
                > 0 {
                Some(self.windows()[0].window_id)
            } else {
                None
            }),
        ensures
            self.wf(),
    {
        let ws = before.windows();
        let nws = self.windows();
        let id = before.surface_map()[surface];
        assert(has_id(ws, id));
        assert(0 <= i < ws.len() && ws[i].window_id == id);
        assert(ids_distinct(nws)) by {
            assert forall|a: int, b: int|
                0 <= a < nws.len() && 0 <= b < nws.len() && a != b implies (#[trigger] nws[a]).window_id
                != (#[trigger] nws[b]).window_id by {
                let a0 = if a < i { a } else { a + 1 };
                let b0 = if b < i { b } else { b + 1 };
                assert(nws[a] == ws[a0] && nws[b] == ws[b0]);
                assert(ws[a0].window_id != ws[b0].window_id);
            }
        }
        assert forall|k: int| 0 <= k < nws.len() implies (#[trigger] nws[k]).window_id < self.next_id() by {
            let k0 = if k < i { k } else { k + 1 };
            assert(nws[k] == ws[k0]);
            assert(ws[k0].window_id < before.next_id());
        }
        assert forall|x: u64| has_id(ws, x) && x != id implies has_id(nws, x) && nws[index_of(nws, x)] == ws[index_of(ws, x)] by {
            let k = index_of(ws, x);
            assert(k != i);
            let k1 = if k < i { k } else { k - 1 };
            assert(nws[k1] == ws[k]);
            lemma_index_of_unique(nws, x, k1);
        }
        assert forall|s: u64| #[trigger] self.surface_map().contains_key(s) implies has_id(
            nws,
            self.surface_map()[s],
        ) && nws[index_of(nws, self.surface_map()[s])].surface_id == s by {
            let x = self.surface_map()[s];
            assert(before.surface_map().contains_key(s));
            assert(has_id(ws, x));
            if x == id {
                assert(ws[index_of(ws, x)].surface_id == s);
                assert(ws[index_of(ws, id)].surface_id == surface);
            }
        }
        if let Some(f) = self.focus() {
            if before.focus() == Some(id) {
                assert(nws.len() > 0);
                assert(nws[0].window_id == f);
            } else {
                assert(has_id(ws, f));
            }
        }
        assert forall|k: int| 0 <= k < nws.len() && (#[trigger] nws[k]).mapped implies nws[k].acked by {
            let k0 = if k < i { k } else { k + 1 };
            assert(nws[k] == ws[k0]);
        }
    }

    /// Focus window `window_id` (from a `SetFocus` message): the previously
    /// focused xdg toplevel, if another, is deactivated and the new one
    /// activated. Unknown window ids change nothing.
    pub fn set_focus(&mut self, window_id: u64) -> (reqs: Vec<ShellRequest>)
        requires
            old(self).wf(),
        ensures
            final(self).wf(),
            final(self).windows() == old(self).windows(),
            final(self).surface_map() == old(self).surface_map(),
            final(self).next_id() == old(self).next_id(),
            final(self).pending() == old(self).pending(),
            has_id(old(self).windows(), window_id) ==> {
                let ws = old(self).windows();
                &&& final(self).focus() == Some(window_id)
                &&& reqs@ == (match old(self).focus() {
                    Some(o) => if o != window_id {
                        activation(ws[index_of(ws, o)], false)
                    } else {
                        Seq::empty()
                    },
                    None => Seq::empty(),
                }) + activation(ws[index_of(ws, window_id)], true)
            },
            !has_id(old(self).windows(), window_id) ==> final(self).focus() == old(self).focus()
                && reqs@ == Seq::<ShellRequest>::empty(),
    {
        let mut reqs: Vec<ShellRequest> = Vec::new();
        let i = match self.find(window_id) {
            Some(i) => i,
            None => {
                return reqs;
            },
        };
        let ghost ws = self.windows();
        if let Some(old_id) = self.focused {
            if old_id != window_id {
                if let Some(j) = self.find(old_id) {
                    if self.windows[j].kind == ShellKind::Xdg {
                        reqs.push(
                            ShellRequest::SetActivated {
                                window_id: old_id,
                                surface_id: self.windows[j].surface_id,
                                activated: false,
                            },
                        );
                    }
                }
            }
        }
        let ghost first = reqs@;
        self.focused = Some(window_id);
        if self.windows[i].kind == ShellKind::Xdg {
            reqs.push(
                ShellRequest::SetActivated {
                    window_id,
                    surface_id: self.windows[i].surface_id,
                    activated: true,
                },
            );
        }
        proof {
            lemma_index_of_unique(ws, window_id, i as int);
            assert(reqs@ =~= first + activation(ws[index_of(ws, window_id)], true));
        }
        reqs
    }

    /// Ask window `window_id` to close (from a `CloseWindow` message): an
    /// xdg toplevel gets the `close` event; legacy and unknown windows get
    /// nothing.
    pub fn close_window(&self, window_id: u64) -> (reqs: Vec<ShellRequest>)
        requires
            ids_distinct(self.windows()),
        ensures
            reqs@ == (if has_id(self.windows(), window_id) && self.windows()[index_of(
                self.windows(),
                window_id,
            )].kind == ShellKind::Xdg {
                seq![ShellRequest::Close {
                    window_id,
                    surface_id: self.windows()[index_of(self.windows(), window_id)].surface_id,
                }]
            } else {
                Seq::empty()
            }),
    {
        let mut reqs: Vec<ShellRequest> = Vec::new();
        if let Some(i) = self.find(window_id) {
            if self.windows[i].kind == ShellKind::Xdg {
                reqs.push(ShellRequest::Close { window_id, surface_id: self.windows[i].surface_id });
            }
        }
        proof {
            if has_id(self.windows(), window_id) {
                assert(reqs@ =~= (if self.windows()[index_of(self.windows(), window_id)].kind
                    == ShellKind::Xdg {
                    seq![ShellRequest::Close {
                        window_id,
                        surface_id: self.windows()[index_of(self.windows(), window_id)].surface_id,
                    }]
                } else {
                    Seq::empty()
                }));
            } else {
                assert(reqs@ =~= Seq::<ShellRequest>::empty());
            }
        }
        reqs
    }

    /// Ask window `window_id` for a new size (from a `ConfigureWindow`
    /// message); unknown windows get nothing.
    pub fn configure_window(&self, window_id: u64, width: u32, height: u32) -> (reqs: Vec<ShellRequest>)
        requires
            ids_distinct(self.windows()),
        ensures
            reqs@ == (if has_id(self.windows(), window_id) {
                let w = self.windows()[index_of(self.windows(), window_id)];
                seq![ShellRequest::Configure {
                    window_id,
                    surface_id: w.surface_id,
                    kind: w.kind,
                    width,
                    height,
                }]
            } else {
                Seq::empty()
            }),
    {
        let mut reqs: Vec<ShellRequest> = Vec::new();
        if let Some(i) = self.find(window_id) {
            reqs.push(
                ShellRequest::Configure {
                    window_id,
                    surface_id: self.windows[i].surface_id,
                    kind: self.windows[i].kind,
                    width,
                    height,
                },
            );
        }
        proof {
            if has_id(self.windows(), window_id) {
                let w = self.windows()[index_of(self.windows(), window_id)];
                assert(reqs@ =~= seq![ShellRequest::Configure {
                    window_id,
                    surface_id: w.surface_id,
                    kind: w.kind,
                    width,
                    height,
                }]);
            } else {
                assert(reqs@ =~= Seq::<ShellRequest>::empty());
            }
        }
        reqs
    }

    /// The surface of the focused window, for keyboard focus.
    pub fn focused_surface(&self) -> (r: Option<u64>)
        requires
            ids_distinct(self.windows()),
        ensures
            r == (match self.focus() {
                Some(f) => if has_id(self.windows(), f) {
                    Some(self.windows()[index_of(self.windows(), f)].surface_id)
                } else {
                    None
                },
                None => None,
            }),
    {
        match self.focused {
            Some(f) => match self.find(f) {
                Some(i) => Some(self.windows[i].surface_id),
                None => None,
            },
            None => None,
        }
    }

    /// The focused window id, if any.
    pub fn focused(&self) -> (r: Option<u64>)
        ensures
            r == self.focus(),
    {
        self.focused
    }

    /// Take the queued window events for the network, oldest first.
    pub fn drain_events(&mut self) -> (events: Vec<(u64, WindowEventKind)>)
        requires
            old(self).wf(),
        ensures
            final(self).wf(),
            events@.map_values(|e: (u64, WindowEventKind)| (e.0, e.1@)) == old(self).pending(),
            final(self).pending() == Seq::<(u64, WindowEventKindV)>::empty(),
            final(self).windows() == old(self).windows(),
            final(self).surface_map() == old(self).surface_map(),
            final(self).next_id() == old(self).next_id(),
            final(self).focus() == old(self).focus(),
    {
        let mut events: Vec<(u64, WindowEventKind)> = Vec::new();
        std::mem::swap(&mut events, &mut self.pending_events);
        assert(self.pending() =~= Seq::<(u64, WindowEventKindV)>::empty());
        events
    }

    /// Number of mapped windows.
    pub fn window_count(&self) -> (n: usize)
        ensures
            n == mapped_count(self.windows()),
    {
        let mut n: usize = 0;
        let mut i: usize = 0;
        while i < self.windows.len()
            invariant
                i <= self.windows@.len(),
                n == mapped_count(self.windows().take(i as int)),
                n <= i,
            decreases self.windows@.len() - i,
        {
            let ghost prefix = self.windows().take(i as int);
            assert(self.windows().take(i as int + 1).drop_last() =~= prefix);
            if self.windows[i].mapped {
                n = n + 1;
            }
            i = i + 1;
        }
        assert(self.windows().take(i as int) =~= self.windows());
        n
    }

    /// Ids of all mapped windows, in registration order.
    pub fn mapped_windows(&self) -> (ids: Vec<u64>)
        ensures
            ids@ == mapped_ids(self.windows()),
    {
        let mut ids: Vec<u64> = Vec::new();
        let mut i: usize = 0;
        while i < self.windows.len()
            invariant
                i <= self.windows@.len(),
                ids@ == mapped_ids(self.windows().take(i as int)),
            decreases self.windows@.len() - i,
        {
            assert(self.windows().take(i as int + 1).drop_last() =~= self.windows().take(i as int));
            if self.windows[i].mapped {
                ids.push(self.windows[i].window_id);
            }
            i = i + 1;
        }
        assert(self.windows().take(i as int) =~= self.windows());
        ids
    }

    /// The surface of a tracked window.
    pub fn surface_id_for(&self, window_id: u64) -> (r: Option<u64>)
        requires
            ids_distinct(self.windows()),
        ensures
            r == (if has_id(self.windows(), window_id) {
                Some(self.windows()[index_of(self.windows(), window_id)].surface_id)
            } else {
                None
            }),
    {
        match self.find(window_id) {
            Some(i) => Some(self.windows[i].surface_id),
            None => None,
        }
    }

    /// The surface backing a tracked window, for input focus injection.
    pub fn surface_for(&self, window_id: u64) -> (r: Option<u64>)
        requires
            ids_distinct(self.windows()),
        ensures
            r == (if has_id(self.windows(), window_id) {
                Some(self.windows()[index_of(self.windows(), window_id)].surface_id)
            } else {
                None
            }),
    {
        self.surface_id_for(window_id)
    }

    /// The committed size of a tracked, mapped window.
    pub fn window_size(&self, window_id: u64) -> (r: Option<(u32, u32)>)
        requires
            ids_distinct(self.windows()),
        ensures
            r == (if has_id(self.windows(), window_id) && self.windows()[index_of(
                self.windows(),
                window_id,
            )].mapped {
                let w = self.windows()[index_of(self.windows(), window_id)];
                Some((w.width, w.height))
            } else {
                None
            }),
    {
        match self.find(window_id) {
            Some(i) => if self.windows[i].mapped {
                Some((self.windows[i].width, self.windows[i].height))
            } else {
                None
            },
            None => None,
        }
    }
}

impl Default for WindowManager {
    fn default() -> (m: Self)
        ensures
            m.wf(),
            m.windows() == Seq::<WindowV>::empty(),
            m.surface_map() == Map::<u64, u64>::empty(),
            m.next_id() == 1,
            m.focus() is None,
            m.pending() == Seq::<(u64, WindowEventKindV)>::empty(),
    {
        Self::new()
    }
}

/// Appending a window whose id is at least every id's bound keeps ids distinct.
pub proof fn lemma_push_fresh(ws: Seq<WindowV>, nw: WindowV, bound: u64)
    requires
        ids_distinct(ws),
        forall|i: int| 0 <= i < ws.len() ==> (#[trigger] ws[i]).window_id < bound,
        nw.window_id == bound,
    ensures
        ids_distinct(ws.push(nw)),
{
    let nws = ws.push(nw);
    assert forall|a: int, b: int|
        0 <= a < nws.len() && 0 <= b < nws.len() && a != b implies (#[trigger] nws[a]).window_id != (
        #[trigger] nws[b]).window_id by {
        if a < ws.len() && b < ws.len() {
            assert(ws[a].window_id != ws[b].window_id);
        } else if a < ws.len() {
            assert(ws[a].window_id < bound);
        } else {
            assert(ws[b].window_id < bound);
        }
    }
}

/// In a sequence with distinct ids, the window with id `id` sits at `i`.
pub proof fn lemma_index_of_unique(ws: Seq<WindowV>, id: u64, i: int)
    requires
        ids_distinct(ws),
        0 <= i < ws.len(),
        ws[i].window_id == id,
    ensures
        has_id(ws, id),
        index_of(ws, id) == i,
{
    assert(has_id(ws, id));
    let j = index_of(ws, id);
    assert(0 <= j < ws.len() && ws[j].window_id == id);
}

/// Whether `evs` holds a `Created` event.
pub open spec fn announces_creation(evs: Seq<(u64, WindowEventKindV)>) -> bool {
    exists|k: int| 0 <= k < evs.len() && (#[trigger] evs[k]).1 is Created
}

/// A commit maps a window exactly when the window has acked a configure,
/// and announces it (`Created`) exactly when it maps for the first time:
/// a window that is already mapped, or has not acked, is never announced,
/// so a window is announced at most once however often it commits.
pub proof fn lemma_commit_maps_once(w: WindowV, width: u32, height: u32, width2: u32, height2: u32)
    ensures
        committed(w, width, height).mapped == (w.mapped || w.acked),
        announces_creation(commit_events(w, width, height)) == (w.acked && !w.mapped),
        !announces_creation(commit_events(committed(w, width, height), width2, height2)),
{
    let evs = commit_events(w, width, height);
    if w.acked && !w.mapped {
        assert(evs[evs.len() - 1].1 is Created);
    }
    if announces_creation(evs) {
        let k = choose|k: int| 0 <= k < evs.len() && (#[trigger] evs[k]).1 is Created;
        assert(w.acked && !w.mapped);
    }
    let c = committed(w, width, height);
    let evs2 = commit_events(c, width2, height2);
    assert(!(c.acked && !c.mapped));
    if announces_creation(evs2) {
        let k = choose|k: int| 0 <= k < evs2.len() && (#[trigger] evs2[k]).1 is Created;
        assert(false);
    }
}

/// A mapped window that commits a size different from its stored one, in
/// width, in height or in both, is announced as resized to exactly the new
/// size, and nothing else is queued for it; it stays mapped with the new
/// size stored.
pub proof fn lemma_size_change_is_announced(w: WindowV, width: u32, height: u32)
    requires
        w.mapped,
        w.width != width || w.height != height,
    ensures
        commit_events(w, width, height) == seq![(w.window_id, (WindowEventKindV::Resized { width, height }))],
        committed(w, width, height).mapped,
        committed(w, width, height).width == width,
        committed(w, width, height).height == height,
{
    assert(commit_events(w, width, height) =~= seq![(w.window_id, WindowEventKindV::Resized { width, height })]);
}

/// A commit that leaves a mapped window's size as it was queues nothing.
pub proof fn lemma_same_size_commit_is_silent(w: WindowV)
    requires
        w.mapped,
    ensures
        commit_events(w, w.width, w.height) == Seq::<(u64, WindowEventKindV)>::empty(),
        committed(w, w.width, w.height) == w,
{
    assert(commit_events(w, w.width, w.height) =~= Seq::<(u64, WindowEventKindV)>::empty());
}

/// The id a manager hands to its next window belongs to no tracked window:
/// window ids are never reused.
pub proof fn lemma_next_id_is_fresh(m: WindowManager)
    requires
        m.wf(),
    ensures
        !has_id(m.windows(), m.next_id()),
{
    if has_id(m.windows(), m.next_id()) {
        let i = index_of(m.windows(), m.next_id());
        assert(m.windows()[i].window_id < m.next_id());
    }
}

} // verus!

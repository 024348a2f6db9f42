//! Legacy wl_shell toplevels: what a shell-surface request does to the
//! window manager.
//!
//! Legacy toplevels are mapped the same way as xdg toplevels: register on
//! `set_toplevel` (also `set_fullscreen` and `set_maximized`), hint the
//! output size with a configure, map on the client's first buffer commit.
//! Interactive move/resize grabs, popups, transients and the window class
//! are ignored.

use vstd::prelude::*;

use crate::server::window::{legacy_registered, title_set, window_destroyed, ShellKind, ShellRequest, WindowManager};

verus! {

/// A `wl_shell_surface` request, as far as the compositor acts on it.
#[derive(Debug, Clone, PartialEq, Eq)]
pub enum ShellSurfaceRequest {
    /// `set_toplevel`.
    SetToplevel,
    /// `set_fullscreen`.
    SetFullscreen,
    /// `set_maximized`.
    SetMaximized,
    /// `set_title`.
    SetTitle { title: String },
    /// Any request the headless compositor does not act on (`pong`,
    /// `move`, `resize`, `set_transient`, `set_popup`, `set_class`).
    Ignored,
}

/// The legacy wl_shell global state.
#[derive(Debug)]
pub struct WlShellState;

impl WlShellState {
    /// The state of a freshly advertised `wl_shell` global.
    pub fn new() -> (s: Self) {
        WlShellState
    }

    /// Apply a shell-surface request for the surface keyed `surface_id` to
    /// the window manager. Toplevel, fullscreen and maximized all register
    /// the window as a legacy toplevel and answer with a configure hinting
    /// the `width` × `height` output; a title is stored; anything else
    /// changes nothing.
    pub fn surface_request(
        wm: &mut WindowManager,
        surface_id: u64,
        request: ShellSurfaceRequest,
        width: u32,
        height: u32,
    ) -> (r: Option<ShellRequest>)
        requires
            old(wm).wf(),
            old(wm).next_id() < u64::MAX,
        ensures
            final(wm).wf(),
            match request {
                ShellSurfaceRequest::SetToplevel
                | ShellSurfaceRequest::SetFullscreen
                | ShellSurfaceRequest::SetMaximized => {
                    &&& legacy_registered(*old(wm), *final(wm), surface_id)
                    &&& r == Some(
                        ShellRequest::Configure {
                            window_id: final(wm).surface_map()[surface_id],
                            surface_id,
                            kind: ShellKind::Legacy,
                            width,
                            height,
                        },
                    )
                },
                ShellSurfaceRequest::SetTitle { title } => {
                    &&& title_set(*old(wm), *final(wm), surface_id, title@)
                    &&& r is None
                },
                ShellSurfaceRequest::Ignored => *final(wm) == *old(wm) && r is None,
            },
    {
        match request {
            ShellSurfaceRequest::SetToplevel
            | ShellSurfaceRequest::SetFullscreen
            | ShellSurfaceRequest::SetMaximized => {
                wm.register_legacy_shell(surface_id);
                match wm.window_for_surface(surface_id) {
                    Some(window_id) => Some(
                        ShellRequest::Configure { window_id, surface_id, kind: ShellKind::Legacy, width, height },
                    ),
                    None => {
                        assert(false);
                        None
                    },
                }
            },
            ShellSurfaceRequest::SetTitle { title } => {
                wm.set_title(surface_id, title);
                None
            },
            ShellSurfaceRequest::Ignored => None,
        }
    }

    /// The shell surface on `surface_id` was destroyed (this also fires on
    /// client disconnect): its window goes, exactly as when the surface
    /// itself is destroyed; an already removed window changes nothing.
    pub fn surface_destroyed(wm: &mut WindowManager, surface_id: u64) -> (reqs: Vec<ShellRequest>)
        requires
            old(wm).wf(),
        ensures
            final(wm).wf(),
            window_destroyed(*old(wm), *final(wm), surface_id, reqs@),
    {
        wm.destroy(surface_id)
    }
}

} // verus!

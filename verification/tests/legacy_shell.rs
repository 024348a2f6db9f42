//! Legacy wl_shell surface requests applied to the window manager.

use wayland_remote::protocol::message::WindowEventKind;
use wayland_remote::server::window::{ShellKind, ShellRequest, WindowManager};
use wayland_remote::server::wl_shell::{ShellSurfaceRequest, WlShellState};

#[test]
fn set_toplevel_registers_and_hints_output_size() {
    let _global = WlShellState::new();
    let mut wm = WindowManager::new();
    let r = WlShellState::surface_request(&mut wm, 21, ShellSurfaceRequest::SetToplevel, 1280, 720);
    assert_eq!(
        r,
        Some(ShellRequest::Configure { window_id: 1, surface_id: 21, kind: ShellKind::Legacy, width: 1280, height: 720 })
    );
    assert_eq!(wm.window_for_surface(21), Some(1));
    // Legacy windows are pre-acked: the first commit maps them.
    wm.on_commit(21, 300, 200);
    assert_eq!(wm.window_count(), 1);
    assert_eq!(
        wm.drain_events(),
        vec![(1, WindowEventKind::Created { width: 300, height: 200, title: String::new() })]
    );
}

#[test]
fn fullscreen_and_maximized_map_like_toplevel_and_reuse_the_id() {
    let mut wm = WindowManager::new();
    WlShellState::surface_request(&mut wm, 4, ShellSurfaceRequest::SetFullscreen, 800, 600);
    let r = WlShellState::surface_request(&mut wm, 4, ShellSurfaceRequest::SetMaximized, 800, 600);
    assert_eq!(
        r,
        Some(ShellRequest::Configure { window_id: 1, surface_id: 4, kind: ShellKind::Legacy, width: 800, height: 600 })
    );
    assert_eq!(wm.window_for_surface(4), Some(1));
}

#[test]
fn title_and_ignored_requests() {
    let mut wm = WindowManager::new();
    WlShellState::surface_request(&mut wm, 9, ShellSurfaceRequest::SetToplevel, 10, 10);
    let r = WlShellState::surface_request(&mut wm, 9, ShellSurfaceRequest::SetTitle { title: "xterm".into() }, 10, 10);
    assert_eq!(r, None);
    assert_eq!(WlShellState::surface_request(&mut wm, 9, ShellSurfaceRequest::Ignored, 10, 10), None);
    wm.on_commit(9, 10, 10);
    assert_eq!(
        wm.drain_events(),
        vec![(1, WindowEventKind::Created { width: 10, height: 10, title: "xterm".to_string() })]
    );
    assert!(WlShellState::surface_destroyed(&mut wm, 9).is_empty());
    assert_eq!(wm.drain_events(), vec![(1, WindowEventKind::Destroyed)]);
    assert!(WlShellState::surface_destroyed(&mut wm, 9).is_empty());
    assert!(wm.drain_events().is_empty());
}

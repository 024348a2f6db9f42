//! Window bookkeeping, surface tiling, telemetry and injection decisions of
//! the compositor.

use wayland_remote::protocol::message::{ButtonState, InputEvent, WindowEventKind};
use wayland_remote::server::input::{millis_u32, plan_injection, Injection, InputRouter};
use wayland_remote::server::state::{
    buffer_dimension, latency_after_commit, rate_window_figures, SurfaceInfo, SurfaceLayout, Telemetry,
};
use wayland_remote::server::window::{ShellKind, ShellRequest, WindowManager};

#[test]
fn test_compositor_handler_trait() {
    assert!(true);
}

#[test]
fn test_xdg_shell_handler_trait() {
    assert!(true);
}

#[test]
fn test_xdg_shell_state_initialized() {
    assert!(true);
}

#[test]
fn test_window_id_allocation_pattern() {
    let first_window_id: u32 = 1;
    let second_window_id: u32 = 2;
    let third_window_id: u32 = 3;

    assert_eq!(first_window_id, 1);
    assert_eq!(second_window_id, 2);
    assert_eq!(third_window_id, 3);

    assert!(first_window_id > 0);
    assert!(second_window_id > 0);
    assert!(third_window_id > 0);
}

#[test]
fn test_xdg_wm_base_global_advertised() {
    assert!(true);
}

#[test]
fn test_xdg_shell_handler_methods_exist() {
    assert!(true);
}

#[test]
fn toplevel_maps_only_after_ack_and_commit() {
    let mut wm = WindowManager::new();
    wm.register(10);
    // A commit before the ack does not map (initial-configure trap).
    assert!(wm.on_commit(10, 640, 480).is_empty());
    assert_eq!(wm.window_count(), 0);
    assert!(wm.drain_events().is_empty());
    wm.mark_acked(10);
    let reqs = wm.on_commit(10, 640, 480);
    assert_eq!(reqs, vec![ShellRequest::SetActivated { window_id: 1, surface_id: 10, activated: true }]);
    assert_eq!(wm.window_count(), 1);
    assert_eq!(wm.focused(), Some(1));
    assert_eq!(
        wm.drain_events(),
        vec![(1, WindowEventKind::Created { width: 640, height: 480, title: String::new() })]
    );
    assert!(wm.drain_events().is_empty());
}

#[test]
fn recommit_at_new_size_emits_resized_once() {
    let mut wm = WindowManager::new();
    wm.register(10);
    wm.mark_acked(10);
    wm.on_commit(10, 100, 100);
    wm.drain_events();
    wm.on_commit(10, 100, 100);
    assert!(wm.drain_events().is_empty());
    wm.on_commit(10, 200, 150);
    assert_eq!(wm.drain_events(), vec![(1, WindowEventKind::Resized { width: 200, height: 150 })]);
    assert_eq!(wm.window_size(1), Some((200, 150)));
}

#[test]
fn title_travels_with_created() {
    let mut wm = WindowManager::new();
    wm.register(3);
    wm.set_title(3, "Terminal".to_string());
    wm.mark_acked(3);
    wm.on_commit(3, 10, 20);
    assert_eq!(
        wm.drain_events(),
        vec![(1, WindowEventKind::Created { width: 10, height: 20, title: "Terminal".to_string() })]
    );
}

#[test]
fn destroy_moves_focus_to_remaining_window() {
    let mut wm = WindowManager::new();
    wm.register(10);
    wm.register(20);
    wm.mark_acked(10);
    wm.mark_acked(20);
    wm.on_commit(10, 1, 1);
    wm.on_commit(20, 1, 1);
    assert_eq!(wm.focused(), Some(1));
    let reqs = wm.destroy(10);
    assert_eq!(reqs, vec![ShellRequest::SetActivated { window_id: 2, surface_id: 20, activated: true }]);
    assert_eq!(wm.focused(), Some(2));
    assert_eq!(wm.surface_for(1), None);
    let events = wm.drain_events();
    assert_eq!(events.last(), Some(&(1, WindowEventKind::Destroyed)));
    // Destroying an untracked surface changes nothing.
    assert!(wm.destroy(10).is_empty());
    assert!(wm.drain_events().is_empty());
    wm.destroy(20);
    assert_eq!(wm.focused(), None);
}

#[test]
fn set_focus_deactivates_previous_xdg_window() {
    let mut wm = WindowManager::new();
    wm.register(10);
    wm.register(20);
    wm.mark_acked(10);
    wm.on_commit(10, 1, 1);
    let reqs = wm.set_focus(2);
    assert_eq!(
        reqs,
        vec![
            ShellRequest::SetActivated { window_id: 1, surface_id: 10, activated: false },
            ShellRequest::SetActivated { window_id: 2, surface_id: 20, activated: true },
        ]
    );
    assert_eq!(wm.focused(), Some(2));
    assert_eq!(wm.focused_surface(), Some(20));
    // Unknown ids are ignored.
    assert!(wm.set_focus(99).is_empty());
    assert_eq!(wm.focused(), Some(2));
}

#[test]
fn legacy_windows_are_pre_acked_and_reuse_ids() {
    let mut wm = WindowManager::new();
    wm.register_legacy_shell(5);
    assert!(wm.on_commit(5, 30, 40).is_empty());
    assert_eq!(wm.mapped_windows(), vec![1]);
    assert_eq!(wm.focused(), Some(1));
    wm.register_legacy_shell(5);
    assert_eq!(wm.window_count(), 0);
    assert_eq!(wm.surface_id_for(1), Some(5));
    assert!(wm.close_window(1).is_empty());
    assert_eq!(
        wm.configure_window(1, 300, 200),
        vec![ShellRequest::Configure { window_id: 1, surface_id: 5, kind: ShellKind::Legacy, width: 300, height: 200 }]
    );
}

#[test]
fn close_and_configure_xdg() {
    let mut wm = WindowManager::new();
    wm.register(8);
    assert_eq!(wm.close_window(1), vec![ShellRequest::Close { window_id: 1, surface_id: 8 }]);
    assert!(wm.close_window(2).is_empty());
    assert!(wm.configure_window(2, 1, 1).is_empty());
    assert_eq!(wm.window_size(1), None);
}

#[test]
fn surface_layout_tiles_diagonally() {
    let mut layout = SurfaceLayout::new();
    let a = layout.commit(1, Some((100, 64, 48)));
    assert_eq!(a, SurfaceInfo { buffer: Some(100), x: 0, y: 0, width: 64, height: 48 });
    let b = layout.commit(2, None);
    assert_eq!(b, SurfaceInfo { buffer: None, x: 20, y: 20, width: 0, height: 0 });
    let a2 = layout.commit(1, None);
    assert_eq!(a2, SurfaceInfo { buffer: None, x: 0, y: 0, width: 64, height: 48 });
    assert_eq!(layout.surface_count(), 2);
    assert!(layout.destroyed(2));
    assert!(!layout.destroyed(2));
    assert_eq!(layout.surface_count(), 1);
}

#[test]
fn buffer_dimensions_clamp_negative() {
    assert_eq!(buffer_dimension(-5), 0);
    assert_eq!(buffer_dimension(640), 640);
}

#[test]
fn telemetry_counts_and_snapshots() {
    let mut t = Telemetry::new();
    t.record_frame(100, 2_000_000, 3_000_000);
    t.record_frame(50, 0, 0);
    t.record_error();
    t.record_commit();
    let s = t.snapshot();
    assert_eq!(s.frames_total, 2);
    assert_eq!(s.frame_bytes_total, 150);
    assert_eq!(s.commits_total, 1);
    assert_eq!(s.errors_total, 1);
    assert_eq!(s.input_events_total, 0);
    assert_eq!(s.last_input_to_commit_ms, None);
    t.record_input();
    t.record_commit();
    let s = t.snapshot();
    assert_eq!(s.input_events_total, 1);
    assert!(s.last_input_to_commit_ms.is_some());
}

#[test]
fn latency_pairs_recent_input_only() {
    assert_eq!(latency_after_commit(Some(12_345_678), None), Some(12));
    assert_eq!(latency_after_commit(Some(6_000_000_000), Some(3)), Some(3));
    assert_eq!(latency_after_commit(None, Some(3)), Some(3));
}

#[test]
fn rate_window_publishes_after_a_second() {
    assert_eq!(rate_window_figures(999_999_999, 30, 5_000_000, 7_000_000), (0, 0, 0));
    assert_eq!(rate_window_figures(1_000_000_000, 30, 5_000_000, 7_900_000), (30, 5, 7));
}

#[test]
fn router_serials_start_at_one() {
    let mut r = InputRouter::new();
    assert_eq!(r.next_serial(), 1);
    assert_eq!(r.next_serial(), 2);
    let _ = r.now_ms();
    assert_eq!(millis_u32(2_500_000), 2);
}

#[test]
fn injection_plans() {
    let mut wm = WindowManager::new();
    wm.register(44);
    assert_eq!(
        plan_injection(&wm, 1, InputEvent::KeyDown { scancode: 0x1E }),
        Injection::Key { keycode: 30, pressed: true }
    );
    assert_eq!(
        plan_injection(&wm, 1, InputEvent::KeyUp { scancode: 0x199 }),
        Injection::Dropped { scancode: 0x199 }
    );
    assert_eq!(
        plan_injection(&wm, 1, InputEvent::PointerMove { x: 1, y: 2 }),
        Injection::Motion { focus: Some(44), x: 1, y: 2 }
    );
    assert_eq!(
        plan_injection(&wm, 9, InputEvent::PointerMove { x: 1, y: 2 }),
        Injection::Motion { focus: None, x: 1, y: 2 }
    );
    assert_eq!(
        plan_injection(&wm, 1, InputEvent::PointerButton { button: 0x110, state: ButtonState::Released }),
        Injection::Button { button: 0x110, pressed: false }
    );
}

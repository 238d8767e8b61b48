use waycore::pool::SlotState;
use waycore::seat::DeviceKind;
use waycore::session::{Event, PointerAction, PointerEvent, Request, Session};

const SURFACE: u32 = 7;

fn configured_session() -> Session {
    let mut s = Session::new(SURFACE, 1024 * 1024);
    let requests = s.handle_event(Event::Configure { width: Some(2), height: Some(2) });
    assert!(requests.contains(&Request::Commit));
    s
}

#[test]
fn no_draw_before_first_configure() {
    let mut s = Session::new(SURFACE, 1024 * 1024);
    let before = [
        Event::GlobalAnnounced {
            entry: waycore::registry::GlobalEntry {
                numeric_name: 1,
                interface: waycore::registry::Interface::Compositor,
                version: 4,
            },
        },
        Event::FrameCallback,
        Event::CapabilityAdded { seat: 3, kind: DeviceKind::Pointer },
        Event::KeyboardEnter { surface: SURFACE },
    ];
    for ev in before {
        let requests = s.handle_event(ev);
        assert!(!requests.contains(&Request::Commit));
        assert!(!requests.contains(&Request::Attach { slot: 0 }));
    }
    assert!(!s.surface.first_draw_done);
}

#[test]
fn first_configure_draws_synchronously() {
    let mut s = Session::new(SURFACE, 1024 * 1024);
    let requests = s.handle_event(Event::Configure { width: Some(4), height: Some(4) });
    assert_eq!(
        requests,
        vec![
            Request::Damage { width: 4, height: 4 },
            Request::RequestFrame,
            Request::Attach { slot: 0 },
            Request::Commit,
        ]
    );
    assert!(s.surface.first_draw_done);
    assert!(s.surface.frame_pending);
    assert_eq!((s.surface.current_width, s.surface.current_height), (4, 4));
}

#[test]
fn configure_without_size_uses_default() {
    let mut s = Session::new(SURFACE, 1024 * 1024);
    s.handle_event(Event::Configure { width: None, height: Some(0) });
    assert_eq!((s.surface.current_width, s.surface.current_height), (256, 256));
}

#[test]
fn last_configure_before_commit_wins() {
    let mut s = configured_session();
    s.handle_event(Event::Configure { width: Some(300), height: Some(200) });
    let staged = s.handle_event(Event::Configure { width: Some(320), height: Some(200) });
    assert!(staged.is_empty(), "a later configure redraws only at the next frame");
    let requests = s.handle_event(Event::FrameCallback);
    assert!(requests.contains(&Request::Damage { width: 320, height: 200 }));
    assert_eq!((s.surface.current_width, s.surface.current_height), (320, 200));
    let slot = match requests[2] {
        Request::Attach { slot } => slot,
        _ => panic!("expected an attach request"),
    };
    assert_eq!(s.pool.slot_dimensions(slot), (320, 200));
}

#[test]
fn second_slot_carved_while_first_pending() {
    let mut s = configured_session();
    assert_eq!(s.pool.len(), 1);
    assert_eq!(s.pool.slot_state(0), SlotState::PendingRelease);

    // The release for slot 0 has not arrived when the next frame is due.
    let requests = s.handle_event(Event::FrameCallback);
    assert!(requests.contains(&Request::Attach { slot: 1 }));
    assert_eq!(s.pool.len(), 2, "a second slot is carved instead of blocking");

    s.handle_event(Event::BufferReleased { slot: 0 });
    assert_eq!(s.pool.slot_state(0), SlotState::Free);
    assert_eq!(s.pool.slot_state(1), SlotState::PendingRelease);
}

#[test]
fn released_slot_is_reused() {
    let mut s = configured_session();
    s.handle_event(Event::BufferReleased { slot: 0 });
    let requests = s.handle_event(Event::FrameCallback);
    assert!(requests.contains(&Request::Attach { slot: 0 }));
    assert_eq!(s.pool.len(), 1, "the freed slot is drawn into again");
}

#[test]
fn pending_slot_bytes_survive_redraw() {
    let mut s = configured_session();
    let first_frame = s.pool.slot_pixels(0).clone();
    // Turn the animation on so the next frames hold different content.
    s.handle_event(Event::Pointer {
        event: PointerEvent { surface: SURFACE, action: PointerAction::Press { button: 0x110 } },
    });
    s.handle_event(Event::FrameCallback);
    s.handle_event(Event::FrameCallback);
    assert_eq!(
        s.pool.slot_pixels(0),
        &first_frame,
        "a slot the server holds is never rewritten"
    );
}

#[test]
fn exhausted_pool_skips_frame_but_keeps_pacing() {
    // Room for exactly one 2 x 2 slot.
    let mut s = Session::new(SURFACE, 16);
    let first = s.handle_event(Event::Configure { width: Some(2), height: Some(2) });
    assert!(first.contains(&Request::Attach { slot: 0 }));

    let requests = s.handle_event(Event::FrameCallback);
    assert_eq!(requests, vec![Request::RequestFrame, Request::Commit]);
    assert_eq!(s.pool.len(), 1, "no slot fits, the frame is skipped");
    assert!(s.surface.frame_pending, "the pacing request still goes out");
}

#[test]
fn one_frame_request_outstanding_after_first_commit() {
    let mut s = configured_session();
    assert!(s.surface.frame_pending);
    for _ in 0..3 {
        let requests = s.handle_event(Event::FrameCallback);
        let frame_requests =
            requests.iter().filter(|r| matches!(r, Request::RequestFrame)).count();
        assert_eq!(frame_requests, 1, "each consumed callback issues exactly one request");
        assert!(s.surface.frame_pending);
    }
}

#[test]
fn first_draw_fills_slot_with_rendered_frame() {
    let mut s = configured_session();
    assert_eq!(s.pool.slot_pixels(0), &waycore::render::render_canvas(2, 2, 0));
}

#[test]
fn close_request_stops_drawing() {
    let mut s = configured_session();
    let requests = s.handle_event(Event::CloseRequested);
    assert!(requests.is_empty());
    assert!(s.closing());
    let after = s.handle_event(Event::FrameCallback);
    assert!(after.is_empty(), "a callback after the close request draws nothing");
}

#[test]
fn capability_added_creates_device_once() {
    let mut s = Session::new(SURFACE, 1024);
    let requests = s.handle_event(Event::CapabilityAdded { seat: 9, kind: DeviceKind::Keyboard });
    assert_eq!(requests, vec![Request::CreateDevice { kind: DeviceKind::Keyboard }]);
    let again = s.handle_event(Event::CapabilityAdded { seat: 9, kind: DeviceKind::Keyboard });
    assert!(again.is_empty(), "at most one live handle per kind");
}

#[test]
fn capability_removed_without_handle_is_noop() {
    let mut s = Session::new(SURFACE, 1024);
    let seat_before = s.seat;
    let requests = s.handle_event(Event::CapabilityRemoved { kind: DeviceKind::Pointer });
    assert!(requests.is_empty());
    assert_eq!(s.seat, seat_before);
}

#[test]
fn capability_removed_releases_live_handle() {
    let mut s = Session::new(SURFACE, 1024);
    s.handle_event(Event::CapabilityAdded { seat: 9, kind: DeviceKind::Pointer });
    let requests = s.handle_event(Event::CapabilityRemoved { kind: DeviceKind::Pointer });
    assert_eq!(requests, vec![Request::ReleaseDevice { kind: DeviceKind::Pointer }]);
    assert_eq!(s.seat.pointer, None);
    // A later announcement recreates it.
    let again = s.handle_event(Event::CapabilityAdded { seat: 9, kind: DeviceKind::Pointer });
    assert_eq!(again, vec![Request::CreateDevice { kind: DeviceKind::Pointer }]);
}

#[test]
fn device_creation_failure_is_local() {
    let mut s = Session::new(SURFACE, 1024);
    s.handle_event(Event::CapabilityAdded { seat: 9, kind: DeviceKind::Keyboard });
    s.handle_event(Event::CapabilityAdded { seat: 9, kind: DeviceKind::Pointer });
    s.handle_event(Event::DeviceCreationFailed { kind: DeviceKind::Keyboard });
    assert_eq!(s.seat.keyboard, None);
    assert!(s.seat.pointer.is_some(), "the other device is unaffected");
}

#[test]
fn seat_global_removal_releases_its_devices() {
    let mut s = Session::new(SURFACE, 1024);
    s.handle_event(Event::GlobalAnnounced {
        entry: waycore::registry::GlobalEntry {
            numeric_name: 9,
            interface: waycore::registry::Interface::Seat,
            version: 5,
        },
    });
    s.handle_event(Event::CapabilityAdded { seat: 9, kind: DeviceKind::Keyboard });
    s.handle_event(Event::CapabilityAdded { seat: 9, kind: DeviceKind::Pointer });
    let requests = s.handle_event(Event::GlobalRemoved { numeric_name: 9 });
    assert_eq!(
        requests,
        vec![
            Request::ReleaseDevice { kind: DeviceKind::Keyboard },
            Request::ReleaseDevice { kind: DeviceKind::Pointer },
        ]
    );
    assert_eq!(s.seat.keyboard, None);
    assert_eq!(s.seat.pointer, None);
    assert_eq!(s.registry.len(), 0);
}

#[test]
fn keyboard_focus_follows_surface_identity() {
    let mut s = Session::new(SURFACE, 1024);
    s.handle_event(Event::KeyboardEnter { surface: 99 });
    assert!(!s.seat.focus, "focus on a foreign surface is ignored");
    s.handle_event(Event::KeyboardEnter { surface: SURFACE });
    assert!(s.seat.focus);
    s.handle_event(Event::KeyboardLeave { surface: 99 });
    assert!(s.seat.focus, "leave of a foreign surface is ignored");
    s.handle_event(Event::KeyboardLeave { surface: SURFACE });
    assert!(!s.seat.focus);
}

#[test]
fn foreign_pointer_press_changes_nothing() {
    let mut s = configured_session();
    let shift_before = s.shift;
    let seat_before = s.seat;
    let requests = s.handle_event(Event::Pointer {
        event: PointerEvent { surface: 99, action: PointerAction::Press { button: 0x110 } },
    });
    assert!(requests.is_empty());
    assert_eq!(s.shift, shift_before);
    assert_eq!(s.seat, seat_before);
}

#[test]
fn pointer_press_toggles_animation() {
    let mut s = configured_session();
    assert_eq!(s.shift, None);
    s.handle_event(Event::Pointer {
        event: PointerEvent { surface: SURFACE, action: PointerAction::Press { button: 0x110 } },
    });
    assert_eq!(s.shift, Some(0));
    s.handle_event(Event::Pointer {
        event: PointerEvent { surface: SURFACE, action: PointerAction::Press { button: 0x110 } },
    });
    assert_eq!(s.shift, None);
}

#[test]
fn pointer_frame_batch_in_order() {
    let mut s = configured_session();
    let events = vec![
        PointerEvent { surface: SURFACE, action: PointerAction::Enter },
        PointerEvent { surface: SURFACE, action: PointerAction::Motion },
        PointerEvent { surface: SURFACE, action: PointerAction::Press { button: 0x110 } },
        PointerEvent { surface: 99, action: PointerAction::Press { button: 0x110 } },
        PointerEvent { surface: SURFACE, action: PointerAction::Release { button: 0x110 } },
        PointerEvent { surface: SURFACE, action: PointerAction::Axis },
        PointerEvent { surface: SURFACE, action: PointerAction::Leave },
    ];
    s.pointer_frame(&events);
    assert_eq!(s.shift, Some(0), "one matching press toggled the animation on");
}

#[test]
fn animation_advances_with_each_drawn_frame() {
    let mut s = configured_session();
    s.handle_event(Event::Pointer {
        event: PointerEvent { surface: SURFACE, action: PointerAction::Press { button: 0x110 } },
    });
    assert_eq!(s.shift, Some(0));
    s.handle_event(Event::FrameCallback);
    assert_eq!(s.shift, Some(1), "a drawn frame advances the phase");
    s.handle_event(Event::FrameCallback);
    assert_eq!(s.shift, Some(0), "the phase wraps at the frame width");
}

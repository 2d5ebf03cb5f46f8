use window::input::{
    KeyButMask, KeyCode, Modifiers, MouseButtons, MouseEventKind, MousePress, KEY_BUT_BUTTON1, KEY_BUT_BUTTON3,
    KEY_BUT_CONTROL, KEY_BUT_MOD1, KEY_BUT_MOD4, KEY_BUT_SHIFT,
};
use window::os::linux::connection::{Appearance, KeyEvent, LinuxConnection, PumpAction, RawKeyEvent, WindowEvent};
use window::os::linux::window::{default_window_size, Window};
use window::os::x11::events::X11Event;

fn conn_with_window(xwin: u32) -> (LinuxConnection, Window) {
    let mut conn = LinuxConnection::create_new();
    let w = register(&mut conn, xwin);
    (conn, w)
}

fn register(conn: &mut LinuxConnection, xwin: u32) -> Window {
    let slot = Window::take_slot(conn);
    Window::new(conn, slot, Some(xwin)).unwrap()
}

#[test]
fn window_ids_count_up_from_one() {
    let mut conn = LinuxConnection::create_new();
    let a = register(&mut conn, 100);
    let slot = Window::take_slot(&mut conn);
    let b = Window::create_terminal_window(&mut conn, slot, Some(200)).unwrap();
    assert_eq!(a.id(), 1);
    assert_eq!(b.id(), 2);
    assert_eq!(conn.next_window_id(), 3);
    assert_eq!(conn.next_window_id(), 4);
}

#[test]
fn registered_window_is_found() {
    let (conn, w) = conn_with_window(0x400001);
    let rec = conn.window_by_id(w.id()).unwrap();
    assert_eq!(rec.id, w.id());
    assert_eq!(rec.xcb_window, 0x400001);
    assert!(!rec.should_close);
    assert_eq!(conn.window_id_by_xcb_window(0x400001), Some(w.id()));
    assert_eq!(conn.window_id_by_xcb_window(0x400002), None);
    assert_eq!(conn.window_by_id(99), None);
    assert_eq!(w.with_window_inner(&conn), Some(rec));
    assert_eq!(Window::from_id(w.id()), w);
}

#[test]
fn registration_takes_fresh_ids() {
    let mut conn = LinuxConnection::create_new();
    let slot = Window::take_slot(&mut conn);
    let a = Window::create_with_event_sender(&mut conn, slot, Some(10)).unwrap();
    let slot = Window::take_slot(&mut conn);
    let b = Window::create_with_event_sender(&mut conn, slot, Some(10)).unwrap();
    assert_ne!(a.id(), b.id());
    assert_eq!(conn.window_by_id(a.id()).unwrap().xcb_window, 10);
    assert_eq!(conn.window_by_id(b.id()).unwrap().xcb_window, 10);
    assert!(conn.window_id_by_xcb_window(10).is_some());
}

#[test]
fn events_for_unknown_windows_are_dropped() {
    let (mut conn, _w) = conn_with_window(5);
    assert_eq!(conn.dispatch_event_to_window(6, WindowEvent::NeedRepaint), None);
    assert_eq!(conn.pump_x11_event(X11Event::FocusIn { window: 6 }, 96), PumpAction::Ignore);
}

#[test]
fn closing_window_leaves_on_next_delivery() {
    let (mut conn, w) = conn_with_window(5);
    w.close(&mut conn);
    assert!(conn.window_by_id(w.id()).unwrap().should_close);
    let d = conn.dispatch_event_to_window(5, WindowEvent::Destroyed).unwrap();
    assert_eq!(d.window_id, w.id());
    assert_eq!(d.event, WindowEvent::Destroyed);
    assert!(d.remove_window);
    assert_eq!(conn.window_by_id(w.id()), None);
    assert_eq!(conn.dispatch_event_to_window(5, WindowEvent::Destroyed), None);
}

#[test]
fn open_window_stays_after_delivery() {
    let (mut conn, w) = conn_with_window(5);
    let d = conn.dispatch_event_to_window(5, WindowEvent::NeedRepaint).unwrap();
    assert!(!d.remove_window);
    assert!(conn.window_by_id(w.id()).is_some());
}

#[test]
fn pump_translates_window_events() {
    let (mut conn, w) = conn_with_window(5);
    let deliver = |a: PumpAction| match a {
        PumpAction::Deliver(d) => {
            assert_eq!(d.window_id, w.id());
            d.event
        }
        other => panic!("unexpected {:?}", other),
    };
    assert_eq!(deliver(conn.pump_x11_event(X11Event::Expose { window: 5, width: 1, height: 2 }, 96)), WindowEvent::NeedRepaint);
    assert_eq!(
        deliver(conn.pump_x11_event(X11Event::ConfigureNotify { window: 5, x: 1, y: 2, width: 640, height: 480 }, 96)),
        WindowEvent::Resized { pixel_width: 640, pixel_height: 480, dpi: 96 }
    );
    assert_eq!(deliver(conn.pump_x11_event(X11Event::FocusIn { window: 5 }, 96)), WindowEvent::FocusChanged(true));
    assert_eq!(deliver(conn.pump_x11_event(X11Event::FocusOut { window: 5 }, 96)), WindowEvent::FocusChanged(false));
    assert_eq!(
        deliver(conn.pump_x11_event(X11Event::LeaveNotify { window: 5, x: 0, y: 0, root_x: 0, root_y: 0 }, 96)),
        WindowEvent::MouseLeave
    );
    assert_eq!(deliver(conn.pump_x11_event(X11Event::CloseRequested { window: 5 }, 96)), WindowEvent::CloseRequested);
    assert_eq!(deliver(conn.pump_x11_event(X11Event::Destroy { window: 5 }, 96)), WindowEvent::Destroyed);
    assert_eq!(conn.pump_x11_event(X11Event::Unknown, 96), PumpAction::Ignore);
}

#[test]
fn pump_sends_keys_to_the_keyboard() {
    let (mut conn, _w) = conn_with_window(5);
    let state = KeyButMask { bits: KEY_BUT_SHIFT };
    assert_eq!(
        conn.pump_x11_event(X11Event::KeyPress { window: 5, detail: 38, state }, 96),
        PumpAction::TranslateKey { window: 5, detail: 38, state, key_is_down: true }
    );
    assert_eq!(
        conn.pump_x11_event(X11Event::KeyRelease { window: 5, detail: 38, state }, 96),
        PumpAction::TranslateKey { window: 5, detail: 38, state, key_is_down: false }
    );
}

fn mouse(a: PumpAction) -> window::input::MouseEvent {
    match a {
        PumpAction::Deliver(d) => match d.event {
            WindowEvent::MouseEvent(e) => e,
            other => panic!("unexpected {:?}", other),
        },
        other => panic!("unexpected {:?}", other),
    }
}

#[test]
fn button_press_and_release_track_the_button() {
    let (mut conn, _w) = conn_with_window(5);
    let state = KeyButMask { bits: KEY_BUT_CONTROL };
    let e = mouse(conn.pump_x11_event(
        X11Event::ButtonPress { window: 5, detail: 1, state, x: 10, y: 20, root_x: 110, root_y: 120 },
        96,
    ));
    assert_eq!(e.kind, MouseEventKind::Press(MousePress::Left));
    assert_eq!(e.mouse_buttons, MouseButtons { left: true, middle: false, right: false });
    assert_eq!(e.modifiers, Modifiers { shift: false, ctrl: true, alt: false, super_key: false });
    assert_eq!((e.x, e.y, e.screen_x, e.screen_y), (10, 20, 110, 120));

    let held = KeyButMask { bits: KEY_BUT_BUTTON1 | KEY_BUT_BUTTON3 };
    let e = mouse(conn.pump_x11_event(
        X11Event::ButtonRelease { window: 5, detail: 3, state: held, x: 1, y: 2, root_x: 3, root_y: 4 },
        96,
    ));
    assert_eq!(e.kind, MouseEventKind::Release(MousePress::Right));
    assert_eq!(e.mouse_buttons, MouseButtons { left: true, middle: false, right: false });
}

#[test]
fn wheel_buttons_scroll() {
    let (mut conn, _w) = conn_with_window(5);
    let s = KeyButMask::empty();
    let kinds: Vec<MouseEventKind> = (4u8..=7)
        .map(|d| {
            mouse(conn.pump_x11_event(X11Event::ButtonPress { window: 5, detail: d, state: s, x: 0, y: 0, root_x: 0, root_y: 0 }, 96)).kind
        })
        .collect();
    assert_eq!(
        kinds,
        vec![
            MouseEventKind::VertWheel(1),
            MouseEventKind::VertWheel(-1),
            MouseEventKind::HorzWheel(1),
            MouseEventKind::HorzWheel(-1)
        ]
    );
    // wheel releases and unknown buttons do nothing
    assert_eq!(
        conn.pump_x11_event(X11Event::ButtonRelease { window: 5, detail: 4, state: s, x: 0, y: 0, root_x: 0, root_y: 0 }, 96),
        PumpAction::Ignore
    );
    assert_eq!(
        conn.pump_x11_event(X11Event::ButtonPress { window: 5, detail: 8, state: s, x: 0, y: 0, root_x: 0, root_y: 0 }, 96),
        PumpAction::Ignore
    );
}

#[test]
fn motion_and_enter_move_the_pointer() {
    let (mut conn, _w) = conn_with_window(5);
    let state = KeyButMask { bits: KEY_BUT_BUTTON1 | KEY_BUT_MOD1 };
    let e = mouse(conn.pump_x11_event(X11Event::MotionNotify { window: 5, state, x: -3, y: 4, root_x: 5, root_y: 6 }, 96));
    assert_eq!(e.kind, MouseEventKind::Move);
    assert!(e.mouse_buttons.left);
    assert!(e.modifiers.alt);
    let e = mouse(conn.pump_x11_event(X11Event::EnterNotify { window: 5, x: 7, y: 8, root_x: 9, root_y: 10 }, 96));
    assert_eq!(e.kind, MouseEventKind::Move);
    assert_eq!(e.mouse_buttons, MouseButtons::default());
    assert_eq!(e.modifiers, Modifiers::none());
    assert_eq!((e.x, e.y), (7, 8));
}

#[test]
fn state_bits_map_to_modifiers_and_buttons() {
    let conn = LinuxConnection::create_new();
    let all = KeyButMask { bits: KEY_BUT_SHIFT | KEY_BUT_CONTROL | KEY_BUT_MOD1 | KEY_BUT_MOD4 };
    assert_eq!(conn.modifiers_from_state(all), Modifiers { shift: true, ctrl: true, alt: true, super_key: true });
    assert_eq!(conn.modifiers_from_state(KeyButMask { bits: 0x0080 | 0x0002 }), Modifiers::none());
    assert_eq!(
        conn.mouse_buttons_from_state(KeyButMask { bits: 0x0200 }),
        MouseButtons { left: false, middle: true, right: false }
    );
    assert_eq!(conn.mouse_press_from_detail(2), Some(MousePress::Middle));
    assert_eq!(conn.mouse_press_from_detail(4), None);
    assert_eq!(conn.wheel_kind_from_detail(3), None);
}

#[test]
fn key_event_carries_state_and_code() {
    let (conn, w) = conn_with_window(5);
    let state = KeyButMask { bits: KEY_BUT_SHIFT | KEY_BUT_MOD4 };
    let d = conn.dispatch_key_event(5, 38, state, true, KeyCode::Char('A')).unwrap();
    assert_eq!(d.window_id, w.id());
    assert_eq!(
        d.event,
        RawKeyEvent {
            key: KeyCode::Char('A'),
            modifiers: Modifiers { shift: true, ctrl: false, alt: false, super_key: true },
            raw_code: 38,
            repeat_count: 1,
            key_is_down: true,
        }
    );
    assert_eq!(conn.dispatch_key_event(6, 38, state, true, KeyCode::Char('A')), None);
}

#[test]
fn connection_flags_and_names() {
    let mut conn = LinuxConnection::create_new();
    assert_eq!(conn.name(), "linux");
    assert_eq!(conn.get_appearance(), Appearance::Dark);
    assert!(!conn.is_terminate_requested());
    conn.terminate_message_loop();
    assert!(conn.is_terminate_requested());
}

#[test]
fn window_sizes_and_positions() {
    assert_eq!(default_window_size(), (800, 600));
    assert_eq!(Window::new_window_size(0, 0), (1, 1));
    assert_eq!(Window::new_window_size(1024, 768), (1024, 768));
    assert_eq!(Window::new_window_position(Some(10), Some(-20)), Some((10, -20)));
    assert_eq!(Window::new_window_position(Some(10), None), None);
    assert_eq!(Window::new_window_position(None, Some(3)), None);
    assert_eq!(Window::inner_size_request(300, 200), (300, 200));
    assert_eq!(Window::position_request(-5, 7), (-5, 7));
}

#[test]
fn new_window_registers_and_places() {
    let mut conn = LinuxConnection::create_new();
    let slot = Window::take_slot(&mut conn);
    let (w, pos) = Window::new_window(&mut conn, slot, Some(42), Some(3), Some(4)).unwrap();
    assert_eq!(w.id(), 1);
    assert_eq!(pos, Some((3, 4)));
    assert_eq!(conn.window_by_id(1).unwrap().xcb_window, 42);
    let slot = Window::take_slot(&mut conn);
    let (w2, pos2) = Window::new_window(&mut conn, slot, Some(43), None, Some(4)).unwrap();
    assert_eq!(w2.id(), 2);
    assert_eq!(pos2, None);
}

#[test]
fn lookup_by_x_window_among_many() {
    let mut conn = LinuxConnection::create_new();
    let mut windows = Vec::new();
    for xwin in 1000u32..1020 {
        windows.push((register(&mut conn, xwin), xwin));
    }
    for (w, xwin) in &windows {
        assert_eq!(conn.window_id_by_xcb_window(*xwin), Some(w.id()));
        assert_eq!(conn.window_by_id(w.id()).unwrap().xcb_window, *xwin);
    }
    assert_eq!(conn.window_id_by_xcb_window(999), None);
    let (closed, xwin) = (windows[7].0.clone(), windows[7].1);
    closed.close(&mut conn);
    let d = conn.dispatch_event_to_window(xwin, WindowEvent::Destroyed).unwrap();
    assert_eq!(d.window_id, closed.id());
    assert!(d.remove_window);
    assert_eq!(conn.window_id_by_xcb_window(xwin), None);
    assert_eq!(conn.window_id_by_xcb_window(1008), Some(windows[8].0.id()));
}

#[test]
fn failed_creation_uses_up_its_id() {
    let mut conn = LinuxConnection::create_new();
    let slot = Window::take_slot(&mut conn);
    assert_eq!(slot.id(), 1);
    assert_eq!(Window::new(&mut conn, slot, None), None);
    assert_eq!(conn.window_by_id(1), None);
    let slot = Window::take_slot(&mut conn);
    assert_eq!(Window::new_window(&mut conn, slot, None, Some(1), Some(2)), None);
    let w = register(&mut conn, 77);
    assert_eq!(w.id(), 3);
    assert_eq!(conn.window_id_by_xcb_window(77), Some(3));
}

#[test]
fn unhandled_raw_key_is_followed_by_a_key_event() {
    let conn = LinuxConnection::create_new();
    let shift = Modifiers { shift: true, ctrl: false, alt: false, super_key: false };
    let raw = RawKeyEvent { key: KeyCode::Char('a'), modifiers: shift, raw_code: 38, repeat_count: 1, key_is_down: true };
    assert_eq!(conn.key_event_after_raw(raw, true), None);
    assert_eq!(
        conn.key_event_after_raw(raw, false),
        Some(KeyEvent { key: KeyCode::Char('A'), modifiers: Modifiers::default(), repeat_count: 1, key_is_down: true, raw: Some(raw) })
    );
    let ctrl = Modifiers { shift: false, ctrl: true, alt: false, super_key: false };
    let raw = RawKeyEvent { key: KeyCode::Char('a'), modifiers: ctrl, raw_code: 38, repeat_count: 1, key_is_down: false };
    assert_eq!(
        conn.key_event_after_raw(raw, false),
        Some(KeyEvent { key: KeyCode::Char('a'), modifiers: ctrl, repeat_count: 1, key_is_down: false, raw: Some(raw) })
    );
}

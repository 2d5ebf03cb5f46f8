use window::geometry::ScreenRect;
use window::input::KeyButMask;
use window::os::x11::connection::{
    ClientMessage, ConfigWindow, MonitorInfo, PropertyData, ScreenSetup, XConnection, XConnectionError, XRequest,
    ATOM_ATOM, ATOM_STRING, ATOM_WM_NAME, TOPLEVEL_EVENT_MASK,
};
use window::os::x11::events::{is_wm_delete_window_message, ClientMessageData, X11Event, XcbEvent};
use window::os::x11::window::{window_handle_data, XWindow, XcbWindowHandleData};
use window::text::{append_decimal, append_signed_decimal};

fn setup() -> Vec<ScreenSetup> {
    vec![
        ScreenSetup { root: 0x100, root_visual: 0x21, width_in_pixels: 1920, height_in_pixels: 1080, white_pixel: 0xffffff },
        ScreenSetup { root: 0x200, root_visual: 0x22, width_in_pixels: 800, height_in_pixels: 600, white_pixel: 1 },
    ]
}

fn conn() -> XConnection {
    XConnection::create_new(0, &setup()).unwrap()
}

#[test]
fn connection_takes_the_default_screen() {
    let c = XConnection::create_new(1, &setup()).unwrap();
    let s = c.screen();
    assert_eq!((s.default_screen, s.root_window, s.root_visual, s.root_width, s.root_height, s.white_pixel), (1, 0x200, 0x22, 800, 600, 1));
    assert!(matches!(XConnection::create_new(2, &setup()), Err(XConnectionError::NoScreens)));
    assert!(matches!(XConnection::create_new(-1, &setup()), Err(XConnectionError::NoScreens)));
    assert!(matches!(XConnection::create_new(0, &vec![]), Err(XConnectionError::NoScreens)));
}

#[test]
fn atom_cache_reads_back_what_was_recorded() {
    let mut c = conn();
    assert_eq!(c.get_atom("WM_PROTOCOLS"), None);
    assert_eq!(c.wm_protocols_atom(), None);
    c.record_atom("WM_PROTOCOLS", 301);
    c.record_atom("WM_DELETE_WINDOW", 302);
    assert_eq!(c.get_atom("WM_PROTOCOLS"), Some(301));
    assert_eq!(c.wm_protocols_atom(), Some(301));
    assert_eq!(c.wm_delete_window_atom(), Some(302));
    c.record_atom("WM_PROTOCOLS", 401);
    assert_eq!(c.wm_protocols_atom(), Some(401));
    assert_eq!(c.wm_delete_window_atom(), Some(302));
    c.record_atom("_NET_ACTIVE_WINDOW", 1);
    c.record_atom("_NET_WM_STATE", 2);
    c.record_atom("_NET_WM_STATE_MAXIMIZED_HORZ", 3);
    c.record_atom("_NET_WM_STATE_MAXIMIZED_VERT", 4);
    c.record_atom("_NET_WM_STATE_FULLSCREEN", 5);
    assert_eq!(
        (
            c.net_active_window_atom(),
            c.net_wm_state_atom(),
            c.net_wm_state_maximized_horz_atom(),
            c.net_wm_state_maximized_vert_atom(),
            c.net_wm_state_fullscreen_atom()
        ),
        (Some(1), Some(2), Some(3), Some(4), Some(5))
    );
}

#[test]
fn delete_window_message_needs_both_atoms() {
    let data = ClientMessageData::Data32([302, 0, 0, 0, 0]);
    assert!(is_wm_delete_window_message(301, data, Some(301), Some(302)));
    assert!(!is_wm_delete_window_message(301, data, None, Some(302)));
    assert!(!is_wm_delete_window_message(301, data, Some(301), None));
    assert!(!is_wm_delete_window_message(300, data, Some(301), Some(302)));
    assert!(!is_wm_delete_window_message(301, ClientMessageData::Data32([303, 0, 0, 0, 0]), Some(301), Some(302)));
    assert!(!is_wm_delete_window_message(301, ClientMessageData::Data8([0; 20]), Some(301), Some(302)));
    assert!(!is_wm_delete_window_message(301, ClientMessageData::Data16([0; 10]), Some(301), Some(302)));
}

#[test]
fn events_decode() {
    let s = KeyButMask { bits: 5 };
    assert_eq!(
        X11Event::from_xcb_event(&XcbEvent::KeyPress { event: 9, detail: 38, state: s }, None, None),
        X11Event::KeyPress { window: 9, detail: 38, state: s }
    );
    assert_eq!(
        X11Event::from_xcb_event(
            &XcbEvent::ButtonRelease { event: 9, detail: 2, state: s, event_x: 1, event_y: 2, root_x: 3, root_y: 4 },
            None,
            None
        ),
        X11Event::ButtonRelease { window: 9, detail: 2, state: s, x: 1, y: 2, root_x: 3, root_y: 4 }
    );
    assert_eq!(
        X11Event::from_xcb_event(&XcbEvent::ConfigureNotify { window: 9, x: -1, y: 2, width: 65535, height: 3 }, None, None),
        X11Event::ConfigureNotify { window: 9, x: -1, y: 2, width: 65535, height: 3 }
    );
    assert_eq!(
        X11Event::from_xcb_event(&XcbEvent::Expose { window: 9, width: 10, height: 20 }, None, None),
        X11Event::Expose { window: 9, width: 10, height: 20 }
    );
    assert_eq!(X11Event::from_xcb_event(&XcbEvent::DestroyNotify { window: 9 }, None, None), X11Event::Destroy { window: 9 });
    assert_eq!(X11Event::from_xcb_event(&XcbEvent::Other, None, None), X11Event::Unknown);
    let close = XcbEvent::ClientMessage { window: 9, message_type: 301, data: ClientMessageData::Data32([302, 0, 0, 0, 0]) };
    assert_eq!(X11Event::from_xcb_event(&close, Some(301), Some(302)), X11Event::CloseRequested { window: 9 });
    assert_eq!(X11Event::from_xcb_event(&close, Some(301), None), X11Event::Unknown);
    assert!(X11Event::Destroy { window: 1 }.is_destroy());
    assert!(!X11Event::Unknown.is_destroy());
}

#[test]
fn connection_decodes_with_cached_atoms() {
    let mut c = conn();
    let close = XcbEvent::ClientMessage { window: 9, message_type: 301, data: ClientMessageData::Data32([302, 0, 0, 0, 0]) };
    assert_eq!(c.decode_event(&close), X11Event::Unknown);
    c.record_atom("WM_PROTOCOLS", 301);
    assert_eq!(c.decode_event(&close), X11Event::Unknown);
    c.record_atom("WM_DELETE_WINDOW", 302);
    assert_eq!(c.decode_event(&close), X11Event::CloseRequested { window: 9 });
}

#[test]
fn window_creation_requests() {
    let c = conn();
    let r = c.create_simple_window(0x3a00001, 0, 0, 640, 480, 301, 302);
    assert_eq!(
        r[0],
        XRequest::CreateWindow {
            wid: 0x3a00001,
            parent: 0x100,
            x: 0,
            y: 0,
            width: 640,
            height: 480,
            border_width: 0,
            visual: 0x21,
            back_pixel: 0xffffff,
            event_mask: 0x0022_807f
        }
    );
    assert_eq!(
        r[1],
        XRequest::ChangeProperty { window: 0x3a00001, property: 301, property_type: ATOM_ATOM, data: PropertyData::Atoms(vec![302]) }
    );
    let mut c = conn();
    c.window_created(0x3a00001, 640, 480);
    c.window_destroyed(0x3a00001);
}

#[test]
fn configure_sends_only_given_values() {
    let c = conn();
    assert_eq!(c.configure_window(7, None, None, None, None), None);
    assert_eq!(
        c.configure_window(7, Some(-3), None, Some(10), None),
        Some(XRequest::ConfigureWindow { window: 7, values: vec![ConfigWindow::X(-3), ConfigWindow::Width(10)] })
    );
    assert_eq!(
        c.configure_window(7, Some(1), Some(2), Some(3), Some(4)),
        Some(XRequest::ConfigureWindow {
            window: 7,
            values: vec![ConfigWindow::X(1), ConfigWindow::Y(2), ConfigWindow::Width(3), ConfigWindow::Height(4)]
        })
    );
}

#[test]
fn title_and_wm_messages() {
    let c = conn();
    assert_eq!(
        c.set_window_title(7, "hi", 50, 51),
        vec![
            XRequest::ChangeProperty { window: 7, property: 50, property_type: 51, data: PropertyData::Text("hi".to_string()) },
            XRequest::ChangeProperty { window: 7, property: ATOM_WM_NAME, property_type: ATOM_STRING, data: PropertyData::Text("hi".to_string()) },
        ]
    );
    assert_eq!(
        c.change_net_wm_state(7, 1, 60, 61, 62),
        XRequest::SendEvent { destination: 0x100, event: ClientMessage { window: 7, message_type: 62, data: [1, 60, 61, 1, 0] } }
    );
    assert_eq!(
        c.request_activate_window(7, 70),
        XRequest::SendEvent { destination: 0x100, event: ClientMessage { window: 7, message_type: 70, data: [1, 0, 7, 0, 0] } }
    );
    assert_eq!(c.set_input_focus(7), XRequest::SetInputFocus { focus: 7 });
    assert_eq!(c.raise_window(7), XRequest::ConfigureWindow { window: 7, values: vec![ConfigWindow::StackModeAbove] });
    assert_eq!(c.map_window(7), XRequest::MapWindow { window: 7 });
    assert_eq!(c.unmap_window(7), XRequest::UnmapWindow { window: 7 });
    assert_eq!(c.destroy_window(7), XRequest::DestroyWindow { window: 7 });
}

#[test]
fn xwindow_requests() {
    let c = conn();
    let (w, reqs) = XWindow::create(&c, 9, 800, 70000, 301, 302);
    assert_eq!(w, XWindow { window: 9, width: 800, height: 70000 });
    assert_eq!(reqs.len(), 3);
    assert_eq!(
        reqs[0],
        XRequest::CreateWindow {
            wid: 9,
            parent: 0x100,
            x: 0,
            y: 0,
            width: 800,
            height: 70000u32 as u16,
            border_width: 0,
            visual: 0x21,
            back_pixel: 0xffffff,
            event_mask: TOPLEVEL_EVENT_MASK
        }
    );
    assert_eq!(reqs[2], XRequest::MapWindow { window: 9 });
    assert_eq!(
        w.initial_title(&c, 50, 51)[0],
        XRequest::ChangeProperty { window: 9, property: 50, property_type: 51, data: PropertyData::Text("Kaku".to_string()) }
    );
    let mut cm = conn();
    assert_eq!(w.finish_creation(&mut cm, 1), Err(1));
    assert_eq!(w.finish_creation(&mut cm, 2), Err(2));
    assert_eq!(w.finish_creation(&mut cm, 3), Ok(()));

    let mut w = XWindow::new(9);
    assert_eq!((w.width, w.height), (800, 600));
    let r = w.set_size(&c, 100000, 300);
    assert_eq!((w.width, w.height), (100000, 300));
    assert_eq!(r, XRequest::ConfigureWindow { window: 9, values: vec![ConfigWindow::Width(65535), ConfigWindow::Height(300)] });
    assert_eq!(
        w.set_position(&c, -40000, 40000),
        XRequest::ConfigureWindow { window: 9, values: vec![ConfigWindow::X(-32768), ConfigWindow::Y(32767)] }
    );
    assert_eq!(
        w.set_position(&c, -5, 5),
        XRequest::ConfigureWindow { window: 9, values: vec![ConfigWindow::X(-5), ConfigWindow::Y(5)] }
    );
    assert_eq!(w.show(&c), XRequest::MapWindow { window: 9 });
    assert_eq!(w.hide_window(&c), XRequest::UnmapWindow { window: 9 });
    assert_eq!(w.close(&c), XRequest::DestroyWindow { window: 9 });
    assert_eq!(w.destroy(&c), XRequest::DestroyWindow { window: 9 });
    assert_eq!(
        w.focus(&c, Some(70)),
        vec![
            XRequest::MapWindow { window: 9 },
            XRequest::ConfigureWindow { window: 9, values: vec![ConfigWindow::StackModeAbove] },
            XRequest::SendEvent { destination: 0x100, event: ClientMessage { window: 9, message_type: 70, data: [1, 0, 9, 0, 0] } }
        ]
    );
    assert_eq!(
        w.focus(&c, None),
        vec![
            XRequest::MapWindow { window: 9 },
            XRequest::ConfigureWindow { window: 9, values: vec![ConfigWindow::StackModeAbove] },
            XRequest::SetInputFocus { focus: 9 }
        ]
    );
    assert_eq!(
        w.request_drag_move(&c, 80, -5, 300),
        vec![
            XRequest::UngrabPointer,
            XRequest::SendEvent {
                destination: 0x100,
                event: ClientMessage { window: 9, message_type: 80, data: [(-5i32) as u32, 300, 8, 1, 1] }
            }
        ]
    );
    assert_eq!(w.set_title(&c, "t", 50, 51).len(), 2);
    assert_eq!(
        w.maximize(&c, 62, 63, 64),
        XRequest::SendEvent { destination: 0x100, event: ClientMessage { window: 9, message_type: 62, data: [1, 63, 64, 1, 0] } }
    );
    assert_eq!(
        w.restore(&c, 62, 63, 64),
        XRequest::SendEvent { destination: 0x100, event: ClientMessage { window: 9, message_type: 62, data: [0, 63, 64, 1, 0] } }
    );
    assert_eq!(
        w.toggle_fullscreen(&c, 62, 65),
        XRequest::SendEvent { destination: 0x100, event: ClientMessage { window: 9, message_type: 62, data: [2, 65, 0, 1, 0] } }
    );
    assert_eq!(w.get_geometry((-1, 2, 3, 4)), (-1, 2, 3, 4));
    assert_eq!(w.xcb_window_handle_data(&c), XcbWindowHandleData { window: 9, visual_id: Some(0x21) });
}

#[test]
fn handle_data_rejects_window_zero() {
    assert_eq!(window_handle_data(0, 5), None);
    assert_eq!(window_handle_data(4, 0), Some(XcbWindowHandleData { window: 4, visual_id: None }));
    assert_eq!(window_handle_data(4, 5), Some(XcbWindowHandleData { window: 4, visual_id: Some(5) }));
}

fn rect(x: isize, y: isize, w: isize, h: isize) -> ScreenRect {
    ScreenRect { x, y, width: w, height: h }
}

fn one_screen(c: &XConnection, a: MonitorInfo, b: MonitorInfo) -> ScreenRect {
    c.screens(Some(vec![a, b])).virtual_rect
}

#[test]
fn virtual_rect_is_the_bounding_box() {
    let c = conn();
    assert_eq!(
        one_screen(&c, monitor(Some("a"), 0, 0, 1920, 1080, false), monitor(Some("b"), 1920, 0, 1280, 1024, false)),
        rect(0, 0, 3200, 1080)
    );
    assert_eq!(
        one_screen(&c, monitor(Some("a"), -100, 50, 10, 10, false), monitor(Some("b"), 0, 0, 5, 5, false)),
        rect(-100, 0, 105, 60)
    );
    // an empty monitor leaves the other's rectangle unchanged
    assert_eq!(
        one_screen(&c, monitor(Some("a"), 10, 10, 0, 5, false), monitor(Some("b"), 1, 2, 3, 4, false)),
        rect(1, 2, 3, 4)
    );
    assert_eq!(
        one_screen(&c, monitor(Some("a"), 1, 2, 3, 4, false), monitor(Some("b"), 50, 50, 7, 0, false)),
        rect(1, 2, 3, 4)
    );
}

fn monitor(name: Option<&str>, x: i16, y: i16, w: u16, h: u16, primary: bool) -> MonitorInfo {
    MonitorInfo { name: name.map(|s| s.to_string()), x, y, width: w, height: h, primary }
}

#[test]
fn screens_without_monitors_use_the_root_window() {
    let c = conn();
    for s in [c.screens(None), c.screens(Some(vec![])), c.single_screen()] {
        assert_eq!(s.main.name, "x11-screen-0");
        assert_eq!(s.main.rect, rect(0, 0, 1920, 1080));
        assert_eq!(s.active, s.main);
        assert_eq!(s.by_name.len(), 1);
        assert_eq!(s.virtual_rect, rect(0, 0, 1920, 1080));
    }
    let c1 = XConnection::create_new(1, &setup()).unwrap();
    assert_eq!(c1.single_screen().main.name, "x11-screen-1");
    assert_eq!(c1.root_rect(), rect(0, 0, 800, 600));
}

#[test]
fn screens_from_monitors() {
    let c = conn();
    let s = c.screens(Some(vec![
        monitor(Some("DP-1"), 0, 0, 1920, 1080, false),
        monitor(Some("HDMI-1"), 1920, 0, 1280, 1024, true),
        monitor(None, -800, 100, 800, 600, false),
    ]));
    assert_eq!(s.main.name, "HDMI-1");
    assert_eq!(s.main.rect, rect(1920, 0, 1280, 1024));
    assert_eq!(s.virtual_rect, rect(-800, 0, 4000, 1080));
    let mut names: Vec<String> = s.by_name.iter().map(|i| i.name.clone()).collect();
    names.sort();
    assert_eq!(names, vec!["DP-1".to_string(), "HDMI-1".to_string(), "monitor-2".to_string()]);
    assert!(s.by_name.iter().any(|i| i.name == s.active.name && i.rect == s.active.rect));
}

#[test]
fn screens_without_primary_use_active_and_later_names_win() {
    let c = conn();
    let s = c.screens(Some(vec![monitor(Some("A"), 0, 0, 10, 10, false), monitor(Some("A"), 10, 0, 20, 20, false)]));
    assert_eq!(s.by_name.len(), 1);
    assert_eq!(s.by_name[0].rect, rect(10, 0, 20, 20));
    assert_eq!(s.main, s.active);
    assert_eq!(s.virtual_rect, rect(0, 0, 30, 20));
}

#[test]
fn decimal_rendering() {
    let mut s = String::from("n=");
    append_decimal(&mut s, 0);
    assert_eq!(s, "n=0");
    let mut s = String::new();
    append_decimal(&mut s, 1234567890);
    assert_eq!(s, "1234567890");
    let mut s = String::new();
    append_signed_decimal(&mut s, -42);
    assert_eq!(s, "-42");
    let mut s = String::new();
    append_signed_decimal(&mut s, i64::MIN);
    assert_eq!(s, i64::MIN.to_string());
    let mut s = String::new();
    append_decimal(&mut s, u64::MAX);
    assert_eq!(s, u64::MAX.to_string());
}

#[test]
fn unnamed_monitors_get_distinct_names() {
    let c = conn();
    let s = c.screens(Some(vec![
        monitor(None, 0, 0, 10, 10, false),
        monitor(None, 10, 0, 10, 10, false),
        monitor(None, 20, 0, 10, 10, false),
        monitor(None, 30, 0, 10, 10, false),
        monitor(None, 40, 0, 10, 10, false),
        monitor(None, 50, 0, 10, 10, false),
        monitor(None, 60, 0, 10, 10, false),
        monitor(None, 70, 0, 10, 10, false),
        monitor(None, 80, 0, 10, 10, false),
        monitor(None, 90, 0, 10, 10, false),
        monitor(None, 100, 0, 10, 10, true),
    ]));
    assert_eq!(s.by_name.len(), 11);
    assert_eq!(s.main.name, "monitor-10");
    assert_eq!(s.main.rect, rect(100, 0, 10, 10));
    assert!(s.by_name.iter().any(|i| i.name == "monitor-1"));
    assert_eq!(s.virtual_rect, rect(0, 0, 110, 10));
}

#[test]
fn toplevel_event_mask_selects_the_window_events() {
    let expected = 1 | 2 | 4 | 8 | 0x10 | 0x20 | 0x40 | 0x8000 | 0x2_0000 | 0x20_0000;
    assert_eq!(window::os::x11::connection::toplevel_event_mask(), expected);
    assert_eq!(TOPLEVEL_EVENT_MASK, expected);
}

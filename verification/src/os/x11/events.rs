//! Decoding of X11 protocol events into the backend's event vocabulary.

use vstd::prelude::*;
use crate::input::KeyButMask;

verus! {

/// The payload of a ClientMessage event in its three formats.
#[derive(Debug, Clone, Copy, PartialEq, Eq)]
pub enum ClientMessageData {
    Data8([u8; 20]),
    Data16([u16; 10]),
    Data32([u32; 5]),
}

/// The core-protocol events that the backend reads, with the fields it reads,
/// as the protocol delivers them. Windows and atoms are their resource ids.
#[derive(Debug, Clone, Copy, PartialEq, Eq)]
pub enum XcbEvent {
    KeyPress { event: u32, detail: u8, state: KeyButMask },
    KeyRelease { event: u32, detail: u8, state: KeyButMask },
    ButtonPress { event: u32, detail: u8, state: KeyButMask, event_x: i16, event_y: i16, root_x: i16, root_y: i16 },
    ButtonRelease { event: u32, detail: u8, state: KeyButMask, event_x: i16, event_y: i16, root_x: i16, root_y: i16 },
    MotionNotify { event: u32, state: KeyButMask, event_x: i16, event_y: i16, root_x: i16, root_y: i16 },
    Expose { window: u32, width: u16, height: u16 },
    FocusIn { event: u32 },
    FocusOut { event: u32 },
    ConfigureNotify { window: u32, x: i16, y: i16, width: u16, height: u16 },
    EnterNotify { event: u32, event_x: i16, event_y: i16, root_x: i16, root_y: i16 },
    LeaveNotify { event: u32, event_x: i16, event_y: i16, root_x: i16, root_y: i16 },
    DestroyNotify { window: u32 },
    ClientMessage { window: u32, message_type: u32, data: ClientMessageData },
    /// Any other event, core or from an extension.
    Other,
}

/// An X11 event as the backend handles it.
#[allow(inconsistent_fields)]
#[derive(Debug, Clone, Copy, PartialEq, Eq)]
pub enum X11Event {
    KeyPress { window: u32, detail: u8, state: KeyButMask },
    KeyRelease { window: u32, detail: u8, state: KeyButMask },
    ButtonPress { window: u32, detail: u8, state: KeyButMask, x: i16, y: i16, root_x: i16, root_y: i16 },
    ButtonRelease { window: u32, detail: u8, state: KeyButMask, x: i16, y: i16, root_x: i16, root_y: i16 },
    MotionNotify { window: u32, state: KeyButMask, x: i16, y: i16, root_x: i16, root_y: i16 },
    Expose { window: u32, width: u32, height: u32 },
    FocusIn { window: u32 },
    FocusOut { window: u32 },
    ConfigureNotify { window: u32, x: i32, y: i32, width: u32, height: u32 },
    EnterNotify { window: u32, x: i16, y: i16, root_x: i16, root_y: i16 },
    LeaveNotify { window: u32, x: i16, y: i16, root_x: i16, root_y: i16 },
    CloseRequested { window: u32 },
    Destroy { window: u32 },
    Unknown,
}

/// Whether a ClientMessage is the window manager's WM_DELETE_WINDOW request:
/// both atoms are known, the message type is WM_PROTOCOLS and the first
/// 32-bit datum is WM_DELETE_WINDOW.
pub open spec fn is_delete_request(
    message_type: u32,
    data: ClientMessageData,
    wm_protocols: Option<u32>,
    wm_delete_window: Option<u32>,
) -> bool {
    match (wm_protocols, wm_delete_window) {
        (Some(p), Some(d)) => message_type == p && match data {
            ClientMessageData::Data32(words) => words[0] == d,
            _ => false,
        },
        _ => false,
    }
}

/// The backend event that a protocol event decodes to.
pub open spec fn decoded(event: XcbEvent, wm_protocols: Option<u32>, wm_delete_window: Option<u32>) -> X11Event {
    match event {
        XcbEvent::KeyPress { event, detail, state } => X11Event::KeyPress { window: event, detail, state },
        XcbEvent::KeyRelease { event, detail, state } => X11Event::KeyRelease { window: event, detail, state },
        XcbEvent::ButtonPress { event, detail, state, event_x, event_y, root_x, root_y } =>
            X11Event::ButtonPress { window: event, detail, state, x: event_x, y: event_y, root_x, root_y },
        XcbEvent::ButtonRelease { event, detail, state, event_x, event_y, root_x, root_y } =>
            X11Event::ButtonRelease { window: event, detail, state, x: event_x, y: event_y, root_x, root_y },
        XcbEvent::MotionNotify { event, state, event_x, event_y, root_x, root_y } =>
            X11Event::MotionNotify { window: event, state, x: event_x, y: event_y, root_x, root_y },
        XcbEvent::Expose { window, width, height } =>
            X11Event::Expose { window, width: width as u32, height: height as u32 },
        XcbEvent::FocusIn { event } => X11Event::FocusIn { window: event },
        XcbEvent::FocusOut { event } => X11Event::FocusOut { window: event },
        XcbEvent::ConfigureNotify { window, x, y, width, height } =>
            X11Event::ConfigureNotify { window, x: x as i32, y: y as i32, width: width as u32, height: height as u32 },
        XcbEvent::EnterNotify { event, event_x, event_y, root_x, root_y } =>
            X11Event::EnterNotify { window: event, x: event_x, y: event_y, root_x, root_y },
        XcbEvent::LeaveNotify { event, event_x, event_y, root_x, root_y } =>
            X11Event::LeaveNotify { window: event, x: event_x, y: event_y, root_x, root_y },
        XcbEvent::DestroyNotify { window } => X11Event::Destroy { window },
        XcbEvent::ClientMessage { window, message_type, data } =>
            if is_delete_request(message_type, data, wm_protocols, wm_delete_window) {
                X11Event::CloseRequested { window }
            } else {
                X11Event::Unknown
            },
        XcbEvent::Other => X11Event::Unknown,
    }
}

impl X11Event {
    /// Decodes a protocol event. A ClientMessage becomes `CloseRequested` only
    /// when it is the WM_DELETE_WINDOW request; every event the backend does not
    /// handle becomes `Unknown`.
    pub fn from_xcb_event(event: &XcbEvent, wm_protocols: Option<u32>, wm_delete_window: Option<u32>) -> (r: X11Event)
        ensures
            r == decoded(*event, wm_protocols, wm_delete_window),
    {
        match *event {
            XcbEvent::KeyPress { event, detail, state } => X11Event::KeyPress { window: event, detail, state },
            XcbEvent::KeyRelease { event, detail, state } => X11Event::KeyRelease { window: event, detail, state },
            XcbEvent::ButtonPress { event, detail, state, event_x, event_y, root_x, root_y } =>
                X11Event::ButtonPress { window: event, detail, state, x: event_x, y: event_y, root_x, root_y },
            XcbEvent::ButtonRelease { event, detail, state, event_x, event_y, root_x, root_y } =>
                X11Event::ButtonRelease { window: event, detail, state, x: event_x, y: event_y, root_x, root_y },
            XcbEvent::MotionNotify { event, state, event_x, event_y, root_x, root_y } =>
                X11Event::MotionNotify { window: event, state, x: event_x, y: event_y, root_x, root_y },
            XcbEvent::Expose { window, width, height } =>
                X11Event::Expose { window, width: width as u32, height: height as u32 },
            XcbEvent::FocusIn { event } => X11Event::FocusIn { window: event },
            XcbEvent::FocusOut { event } => X11Event::FocusOut { window: event },
            XcbEvent::ConfigureNotify { window, x, y, width, height } =>
                X11Event::ConfigureNotify { window, x: x as i32, y: y as i32, width: width as u32, height: height as u32 },
            XcbEvent::EnterNotify { event, event_x, event_y, root_x, root_y } =>
                X11Event::EnterNotify { window: event, x: event_x, y: event_y, root_x, root_y },
            XcbEvent::LeaveNotify { event, event_x, event_y, root_x, root_y } =>
                X11Event::LeaveNotify { window: event, x: event_x, y: event_y, root_x, root_y },
            XcbEvent::DestroyNotify { window } => X11Event::Destroy { window },
            XcbEvent::ClientMessage { window, message_type, data } => {
                if is_wm_delete_window_message(message_type, data, wm_protocols, wm_delete_window) {
                    X11Event::CloseRequested { window }
                } else {
                    X11Event::Unknown
                }
            },
            XcbEvent::Other => X11Event::Unknown,
        }
    }

    /// Whether this is the notification that a window was destroyed, at which
    /// the event loop stops.
    pub fn is_destroy(&self) -> (r: bool)
        ensures
            r == (*self is Destroy),
    {
        match self {
            X11Event::Destroy { .. } => true,
            _ => false,
        }
    }
}

/// Whether a ClientMessage with this type and payload is the window manager's
/// WM_DELETE_WINDOW request.
pub fn is_wm_delete_window_message(
    message_type: u32,
    data: ClientMessageData,
    wm_protocols: Option<u32>,
    wm_delete_window: Option<u32>,
) -> (r: bool)
    ensures
        r == is_delete_request(message_type, data, wm_protocols, wm_delete_window),
{
    let (wm_protocols, wm_delete_window) = match (wm_protocols, wm_delete_window) {
        (Some(p), Some(d)) => (p, d),
        _ => return false,
    };
    if message_type != wm_protocols {
        return false;
    }
    match data {
        ClientMessageData::Data32(words) => words[0] == wm_delete_window,
        _ => false,
    }
}

} // verus!

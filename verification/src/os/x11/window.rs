//! A top-level X11 window: its id and requested size, and the requests that
//! its operations send.

use vstd::prelude::*;
use super::connection::{
    XConnection, XRequest, XWindowInfo, ConfigWindow, ClientMessage, PropertyData, ATOM_ATOM, ATOM_NONE, ATOM_STRING,
    ATOM_WM_NAME, CURRENT_TIME, TOPLEVEL_EVENT_MASK, configure_values,
};

verus! {

/// The _NET_WM_STATE client message actions.
pub const NET_WM_STATE_REMOVE: u32 = 0;
pub const NET_WM_STATE_ADD: u32 = 1;
pub const NET_WM_STATE_TOGGLE: u32 = 2;

/// The _NET_WM_MOVERESIZE direction that moves a window.
pub const NET_WM_MOVERESIZE_MOVE: u32 = 8;

/// What a graphics stack needs to render into an X window: the window's id
/// (never 0) and its visual, where that is known (not 0).
#[derive(Clone, Copy, Debug, PartialEq, Eq, Hash, Structural)]
pub struct XcbWindowHandleData {
    pub window: u32,
    pub visual_id: Option<u32>,
}

/// The handle data for a window id and visual id; `None` for window id 0, and
/// no visual for visual id 0.
pub fn window_handle_data(window: u32, visual: u32) -> (r: Option<XcbWindowHandleData>)
    ensures
        r == (if window == 0 {
            None::<XcbWindowHandleData>
        } else {
            Some(XcbWindowHandleData { window, visual_id: if visual == 0 { None } else { Some(visual) } })
        }),
{
    if window == 0 {
        None
    } else {
        Some(XcbWindowHandleData { window, visual_id: if visual == 0 { None } else { Some(visual) } })
    }
}

/// `v` clamped to the range of `i16`.
pub open spec fn clamp_i16(v: i32) -> i16 {
    if v < -32768 { -32768i16 } else if v > 32767 { 32767i16 } else { v as i16 }
}

/// `v` capped at the largest `u16`.
pub open spec fn cap_u16(v: u32) -> u16 {
    if v > 65535 { 65535u16 } else { v as u16 }
}

/// The _NET_WM_STATE change request for a window.
pub open spec fn net_wm_state_request(root: u32, window: u32, net_wm_state: u32, action: u32, first: u32, second: u32) -> XRequest {
    XRequest::SendEvent {
        destination: root,
        event: ClientMessage { window, message_type: net_wm_state, data: [action, first, second, 1, 0] },
    }
}

/// A top-level window.
#[derive(Debug, Clone, Copy, PartialEq, Eq, Structural)]
pub struct XWindow {
    pub window: u32,
    pub width: u32,
    pub height: u32,
}

impl XWindow {
    /// The window with this id, taken at 800 by 600 pixels.
    pub fn new(window: u32) -> (w: XWindow)
        ensures
            w == (XWindow { window, width: 800, height: 600 }),
    {
        XWindow { window, width: 800, height: 600 }
    }

    /// Creates a top-level window `window_id` (an id the connection
    /// generated) at the origin with this size (narrowed to 16 bits), lists
    /// WM_DELETE_WINDOW in its protocols and maps it: the window, and the
    /// requests in the order they are sent. The window is then titled with
    /// `initial_title`.
    pub fn create(
        connection: &XConnection,
        window_id: u32,
        width: u32,
        height: u32,
        wm_protocols: u32,
        wm_delete_window: u32,
    ) -> (r: (XWindow, Vec<XRequest>))
        ensures
            r.0 == (XWindow { window: window_id, width, height }),
            r.1@.len() == 3,
            r.1@[0] == (XRequest::CreateWindow {
                wid: window_id,
                parent: connection.spec_screen().root_window,
                x: 0,
                y: 0,
                width: width as u16,
                height: height as u16,
                border_width: 0,
                visual: connection.spec_screen().root_visual,
                back_pixel: connection.spec_screen().white_pixel,
                event_mask: TOPLEVEL_EVENT_MASK,
            }),
            r.1@[1] matches XRequest::ChangeProperty { window, property, property_type, data }
                && window == window_id && property == wm_protocols && property_type == ATOM_ATOM
                && (data matches PropertyData::Atoms(atoms) && atoms@ == seq![wm_delete_window]),
            r.1@[2] == (XRequest::MapWindow { window: window_id }),
    {
        let mut requests = connection.create_simple_window(
            window_id,
            0,
            0,
            width as u16,
            height as u16,
            wm_protocols,
            wm_delete_window,
        );
        requests.push(connection.map_window(window_id));
        (XWindow { window: window_id, width, height }, requests)
    }

    /// Records the outcome of sending the requests of `create`, of which the
    /// first `accepted` were accepted: the connection records the window once
    /// it is created and its protocols set (the first two), and creation
    /// succeeds once it is also mapped; else the error names the refused
    /// request.
    pub fn finish_creation(&self, connection: &mut XConnection, accepted: usize) -> (r: Result<(), usize>)
        ensures
            final(connection).windows_map() == (if accepted >= 2 {
                old(connection).windows_map().insert(self.window, XWindowInfo {
                    window: self.window,
                    width: (self.width as u16) as u32,
                    height: (self.height as u16) as u32,
                    visual_id: old(connection).spec_screen().root_visual,
                    colormap: 0,
                })
            } else {
                old(connection).windows_map()
            }),
            final(connection).atoms() == old(connection).atoms(),
            final(connection).wf() == old(connection).wf(),
            final(connection).spec_screen() == old(connection).spec_screen(),
            r == (if accepted >= 3 { Ok::<(), usize>(()) } else { Err(accepted) }),
    {
        if accepted >= 2 {
            connection.window_created(self.window, self.width as u16, self.height as u16);
        }
        if accepted >= 3 {
            Ok(())
        } else {
            Err(accepted)
        }
    }

    /// The requests that give a newly created window its title, "Kaku".
    pub fn initial_title(&self, connection: &XConnection, net_wm_name: u32, utf8_string: u32) -> (r: Vec<XRequest>)
        ensures
            r@.len() == 2,
            r@[0] matches XRequest::ChangeProperty { window, property, property_type, data }
                && window == self.window && property == net_wm_name && property_type == utf8_string
                && (data matches PropertyData::Text(t) && t@ == "Kaku"@),
            r@[1] matches XRequest::ChangeProperty { window, property, property_type, data }
                && window == self.window && property == ATOM_WM_NAME && property_type == ATOM_STRING
                && (data matches PropertyData::Text(t) && t@ == "Kaku"@),
    {
        connection.set_window_title(self.window, "Kaku", net_wm_name, utf8_string)
    }

    /// Sets the window's size: it is recorded as given, and the window is
    /// asked for it with each side capped at the largest 16-bit value.
    pub fn set_size(&mut self, connection: &XConnection, width: u32, height: u32) -> (r: XRequest)
        ensures
            final(self).window == old(self).window,
            final(self).width == width,
            final(self).height == height,
            r matches XRequest::ConfigureWindow { window, values } && window == old(self).window
                && values@ == seq![ConfigWindow::Width(cap_u16(width) as u32), ConfigWindow::Height(cap_u16(height) as u32)],
    {
        self.width = width;
        self.height = height;
        let w: u16 = if width > 65535 { 65535 } else { width as u16 };
        let h: u16 = if height > 65535 { 65535 } else { height as u16 };
        let request = connection.configure_window(self.window, None, None, Some(w), Some(h));
        assert(configure_values(None, None, Some(w), Some(h)) =~= seq![ConfigWindow::Width(w as u32), ConfigWindow::Height(h as u32)]);
        match request {
            Some(r) => r,
            None => XRequest::ConfigureWindow { window: self.window, values: Vec::new() },
        }
    }

    /// Moves the window, each coordinate clamped to the 16-bit range.
    pub fn set_position(&self, connection: &XConnection, x: i32, y: i32) -> (r: XRequest)
        ensures
            r matches XRequest::ConfigureWindow { window, values } && window == self.window
                && values@ == seq![ConfigWindow::X(clamp_i16(x) as i32), ConfigWindow::Y(clamp_i16(y) as i32)],
    {
        let cx: i16 = if x < -32768 { -32768 } else if x > 32767 { 32767 } else { x as i16 };
        let cy: i16 = if y < -32768 { -32768 } else if y > 32767 { 32767 } else { y as i16 };
        let request = connection.configure_window(self.window, Some(cx), Some(cy), None, None);
        assert(configure_values(Some(cx), Some(cy), None, None) =~= seq![ConfigWindow::X(cx as i32), ConfigWindow::Y(cy as i32)]);
        match request {
            Some(r) => r,
            None => XRequest::ConfigureWindow { window: self.window, values: Vec::new() },
        }
    }

    /// The requests that set the window's title.
    pub fn set_title(&self, connection: &XConnection, title: &str, net_wm_name: u32, utf8_string: u32) -> (r: Vec<XRequest>)
        ensures
            r@.len() == 2,
            r@[0] matches XRequest::ChangeProperty { window, property, property_type, data }
                && window == self.window && property == net_wm_name && property_type == utf8_string
                && (data matches PropertyData::Text(t) && t@ == title@),
            r@[1] matches XRequest::ChangeProperty { window, property, property_type, data }
                && window == self.window && property == ATOM_WM_NAME && property_type == ATOM_STRING
                && (data matches PropertyData::Text(t) && t@ == title@),
    {
        connection.set_window_title(self.window, title, net_wm_name, utf8_string)
    }

    /// The request that shows (maps) the window.
    pub fn show(&self, connection: &XConnection) -> (r: XRequest)
        ensures
            r == (XRequest::MapWindow { window: self.window }),
    {
        connection.map_window(self.window)
    }

    /// The request that hides (unmaps) the window.
    pub fn hide_window(&self, connection: &XConnection) -> (r: XRequest)
        ensures
            r == (XRequest::UnmapWindow { window: self.window }),
    {
        connection.unmap_window(self.window)
    }

    /// The request that closes (destroys) the window.
    pub fn close(&self, connection: &XConnection) -> (r: XRequest)
        ensures
            r == (XRequest::DestroyWindow { window: self.window }),
    {
        connection.destroy_window(self.window)
    }

    /// The request that destroys the window.
    pub fn destroy(&self, connection: &XConnection) -> (r: XRequest)
        ensures
            r == (XRequest::DestroyWindow { window: self.window }),
    {
        connection.destroy_window(self.window)
    }

    /// The requests that bring the window forward with the input focus: map
    /// it, raise it, then ask the window manager to activate it through
    /// _NET_ACTIVE_WINDOW; only where that atom is unknown (`None`) is the
    /// window given the input focus directly.
    pub fn focus(&self, connection: &XConnection, net_active_window: Option<u32>) -> (r: Vec<XRequest>)
        ensures
            r@.len() == 3,
            r@[0] == (XRequest::MapWindow { window: self.window }),
            r@[1] matches XRequest::ConfigureWindow { window, values } && window == self.window
                && values@ == seq![ConfigWindow::StackModeAbove],
            r@[2] == match net_active_window {
                Some(atom) => XRequest::SendEvent {
                    destination: connection.spec_screen().root_window,
                    event: ClientMessage { window: self.window, message_type: atom, data: [1, CURRENT_TIME, self.window, 0, 0] },
                },
                None => XRequest::SetInputFocus { focus: self.window },
            },
    {
        let mut requests: Vec<XRequest> = Vec::new();
        requests.push(connection.map_window(self.window));
        requests.push(connection.raise_window(self.window));
        match net_active_window {
            Some(atom) => requests.push(connection.request_activate_window(self.window, atom)),
            None => requests.push(connection.set_input_focus(self.window)),
        }
        requests
    }

    /// The requests that hand an interactive move of the window to the window
    /// manager, with the pointer at (`root_x`, `root_y`) on the root window and
    /// the left button held: release any pointer grab, then send the
    /// _NET_WM_MOVERESIZE message for a move (direction 8), from a normal
    /// application (source 1).
    pub fn request_drag_move(&self, connection: &XConnection, net_wm_moveresize: u32, root_x: i32, root_y: i32) -> (r: Vec<XRequest>)
        ensures
            r@.len() == 2,
            r@[0] == XRequest::UngrabPointer,
            r@[1] == (XRequest::SendEvent {
                destination: connection.spec_screen().root_window,
                event: ClientMessage {
                    window: self.window,
                    message_type: net_wm_moveresize,
                    data: [root_x as u32, root_y as u32, NET_WM_MOVERESIZE_MOVE, 1, 1],
                },
            }),
    {
        let mut requests: Vec<XRequest> = Vec::new();
        requests.push(XRequest::UngrabPointer);
        requests.push(connection.send_client_message(
            connection.screen().root_window,
            self.window,
            net_wm_moveresize,
            [root_x as u32, root_y as u32, NET_WM_MOVERESIZE_MOVE, 1, 1],
        ));
        requests
    }

    /// The request that asks the window manager to maximize the window in both
    /// directions.
    pub fn maximize(&self, connection: &XConnection, net_wm_state: u32, maximized_horz: u32, maximized_vert: u32) -> (r: XRequest)
        ensures
            r == net_wm_state_request(connection.spec_screen().root_window, self.window, net_wm_state,
                NET_WM_STATE_ADD, maximized_horz, maximized_vert),
    {
        connection.change_net_wm_state(self.window, NET_WM_STATE_ADD, maximized_horz, maximized_vert, net_wm_state)
    }

    /// The request that asks the window manager to undo the maximization in
    /// both directions.
    pub fn restore(&self, connection: &XConnection, net_wm_state: u32, maximized_horz: u32, maximized_vert: u32) -> (r: XRequest)
        ensures
            r == net_wm_state_request(connection.spec_screen().root_window, self.window, net_wm_state,
                NET_WM_STATE_REMOVE, maximized_horz, maximized_vert),
    {
        connection.change_net_wm_state(self.window, NET_WM_STATE_REMOVE, maximized_horz, maximized_vert, net_wm_state)
    }

    /// The request that asks the window manager to toggle full-screen.
    pub fn toggle_fullscreen(&self, connection: &XConnection, net_wm_state: u32, fullscreen: u32) -> (r: XRequest)
        ensures
            r == net_wm_state_request(connection.spec_screen().root_window, self.window, net_wm_state,
                NET_WM_STATE_TOGGLE, fullscreen, ATOM_NONE),
    {
        connection.change_net_wm_state(self.window, NET_WM_STATE_TOGGLE, fullscreen, ATOM_NONE, net_wm_state)
    }

    /// The window's geometry from a GetGeometry reply (x, y, width, height),
    /// widened.
    pub fn get_geometry(&self, reply: (i16, i16, u16, u16)) -> (r: (i32, i32, u32, u32))
        ensures
            r == (reply.0 as i32, reply.1 as i32, reply.2 as u32, reply.3 as u32),
    {
        (reply.0 as i32, reply.1 as i32, reply.2 as u32, reply.3 as u32)
    }

    /// The handle data of the window, with the connection's root visual.
    pub fn xcb_window_handle_data(&self, connection: &XConnection) -> (r: XcbWindowHandleData)
        requires
            self.window != 0,
        ensures
            r.window == self.window,
            r.visual_id == (if connection.spec_screen().root_visual == 0 {
                None::<u32>
            } else {
                Some(connection.spec_screen().root_visual)
            }),
    {
        let visual = connection.screen().root_visual;
        XcbWindowHandleData { window: self.window, visual_id: if visual == 0 { None } else { Some(visual) } }
    }
}

} // verus!

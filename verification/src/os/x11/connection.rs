//! The X11 connection's own state (the default screen, the atom cache and the
//! windows it created) and the protocol requests that its operations send.

use vstd::prelude::*;
use std::collections::HashMap;
use crate::geometry::{ScreenRect, bounded, rect_union, union, lemma_union_bounded};
use crate::maps::{pairs_map, distinct_keys, lemma_pairs_map, lemma_pairs_update, lemma_pairs_push};
use crate::text::{append_decimal, append_signed_decimal, decimal, signed_decimal};
use super::events::{X11Event, XcbEvent, decoded};

verus! {

broadcast use vstd::std_specs::hash::group_hash_axioms;

/// Predefined atoms of the core protocol.
pub const ATOM_NONE: u32 = 0;
pub const ATOM_ATOM: u32 = 4;
pub const ATOM_STRING: u32 = 31;
pub const ATOM_WM_NAME: u32 = 39;

/// The protocol's "current server time" timestamp.
pub const CURRENT_TIME: u32 = 0;

/// One value of a ConfigureWindow request.
#[derive(Debug, Clone, Copy, PartialEq, Eq, Structural)]
pub enum ConfigWindow {
    X(i32),
    Y(i32),
    Width(u32),
    Height(u32),
    /// Stack the window above its siblings.
    StackModeAbove,
}

/// A 32-bit ClientMessage event.
#[derive(Debug, Clone, Copy, PartialEq, Eq)]
pub struct ClientMessage {
    pub window: u32,
    pub message_type: u32,
    pub data: [u32; 5],
}

/// The value of a window property.
#[derive(Debug, PartialEq, Eq)]
pub enum PropertyData {
    /// A list of atoms (format 32).
    Atoms(Vec<u32>),
    /// Text, sent as its UTF-8 bytes (format 8).
    Text(String),
}

/// A protocol request that the connection sends. Requests are checked: the
/// first that fails ends the operation with an error.
#[derive(Debug, PartialEq, Eq)]
pub enum XRequest {
    /// Create an input-output window with the parent's depth, a border
    /// width, a background pixel, and the events it selects.
    CreateWindow {
        wid: u32,
        parent: u32,
        x: i16,
        y: i16,
        width: u16,
        height: u16,
        border_width: u16,
        visual: u32,
        back_pixel: u32,
        event_mask: u32,
    },
    /// Replace a property of a window.
    ChangeProperty { window: u32, property: u32, property_type: u32, data: PropertyData },
    MapWindow { window: u32 },
    UnmapWindow { window: u32 },
    DestroyWindow { window: u32 },
    ConfigureWindow { window: u32, values: Vec<ConfigWindow> },
    /// Give a window the input focus, reverting to the pointer root, at the
    /// current server time.
    SetInputFocus { focus: u32 },
    /// Release an active pointer grab, at the current server time.
    UngrabPointer,
    /// Send a ClientMessage to a window, for the substructure redirect and
    /// notify masks, without propagation.
    SendEvent { destination: u32, event: ClientMessage },
}

/// The events a top-level window selects, as the protocol's event mask: key
/// press and release, button press and release, entering and leaving the
/// window, pointer motion, exposure, structure changes and focus changes.
pub const TOPLEVEL_EVENT_MASK: u32 = 0x0022_807f;

/// Reads xcb's `EventMask` flags for the events a top-level window selects,
/// each as its protocol bit: KEY_PRESS (bit 0), KEY_RELEASE (1), BUTTON_PRESS
/// (2), BUTTON_RELEASE (3), ENTER_WINDOW (4), LEAVE_WINDOW (5), POINTER_MOTION
/// (6), EXPOSURE (15), STRUCTURE_NOTIFY (17) and FOCUS_CHANGE (21).
#[verifier::external_body]
fn toplevel_event_flags() -> (r: [u32; 10])
    ensures
        r@ == seq![0x1u32, 0x2, 0x4, 0x8, 0x10, 0x20, 0x40, 0x8000, 0x2_0000, 0x20_0000],
{
    [
        xcb::x::EventMask::KEY_PRESS.bits(),
        xcb::x::EventMask::KEY_RELEASE.bits(),
        xcb::x::EventMask::BUTTON_PRESS.bits(),
        xcb::x::EventMask::BUTTON_RELEASE.bits(),
        xcb::x::EventMask::ENTER_WINDOW.bits(),
        xcb::x::EventMask::LEAVE_WINDOW.bits(),
        xcb::x::EventMask::POINTER_MOTION.bits(),
        xcb::x::EventMask::EXPOSURE.bits(),
        xcb::x::EventMask::STRUCTURE_NOTIFY.bits(),
        xcb::x::EventMask::FOCUS_CHANGE.bits(),
    ]
}

/// The event mask of a top-level window: the union of its event flags.
pub fn toplevel_event_mask() -> (m: u32)
    ensures
        m == TOPLEVEL_EVENT_MASK,
{
    let f = toplevel_event_flags();
    let (a, b, c, d, e): (u32, u32, u32, u32, u32) = (f[0], f[1], f[2], f[3], f[4]);
    let (g, h, i, j, k): (u32, u32, u32, u32, u32) = (f[5], f[6], f[7], f[8], f[9]);
    let m: u32 = a | b | c | d | e | g | h | i | j | k;
    assert(m == 0x0022_807fu32) by (bit_vector)
        requires
            a == 0x1u32, b == 0x2u32, c == 0x4u32, d == 0x8u32, e == 0x10u32,
            g == 0x20u32, h == 0x40u32, i == 0x8000u32, j == 0x2_0000u32, k == 0x20_0000u32,
            m == a | b | c | d | e | g | h | i | j | k;
    m
}

/// What the connection records of a window it created.
#[derive(Debug, Clone, Copy, PartialEq, Eq, Structural)]
pub struct XWindowInfo {
    pub window: u32,
    pub width: u32,
    pub height: u32,
    pub visual_id: u32,
    pub colormap: u32,
}

/// The fields of a screen in the server's setup that the connection keeps.
#[derive(Debug, Clone, Copy, PartialEq, Eq, Structural)]
pub struct ScreenSetup {
    pub root: u32,
    pub root_visual: u32,
    pub width_in_pixels: u16,
    pub height_in_pixels: u16,
    pub white_pixel: u32,
}

/// Why the connection could not be set up.
#[derive(Debug, Clone, Copy, PartialEq, Eq, Structural)]
pub enum XConnectionError {
    /// The server's setup lists no screen with the default screen's number.
    NoScreens,
}

/// A monitor as the RandR extension reports it; `name` is the monitor's name
/// atom resolved to text, `None` where that lookup failed.
#[derive(Debug, PartialEq, Eq)]
pub struct MonitorInfo {
    pub name: Option<String>,
    pub x: i16,
    pub y: i16,
    pub width: u16,
    pub height: u16,
    pub primary: bool,
}

/// A named screen area.
#[derive(Debug, PartialEq, Eq)]
pub struct ScreenInfo {
    pub name: String,
    pub rect: ScreenRect,
    /// The screen's refresh limit; X11 reports none.
    pub max_fps: Option<usize>,
}

impl ScreenInfo {
    pub fn clone(&self) -> (r: ScreenInfo)
        ensures
            r == *self,
    {
        ScreenInfo { name: self.name.clone(), rect: self.rect, max_fps: self.max_fps }
    }
}

/// The screen layout: the main and active screens, the screens by name, and
/// the rectangle covering all of them.
#[derive(Debug, PartialEq, Eq)]
pub struct Screens {
    pub main: ScreenInfo,
    pub active: ScreenInfo,
    pub by_name: Vec<ScreenInfo>,
    pub virtual_rect: ScreenRect,
}

struct AtomEntry {
    name: String,
    atom: u32,
}

/// The cache as (name, atom) pairs.
spec fn atom_pairs(s: Seq<AtomEntry>) -> Seq<(Seq<char>, u32)> {
    s.map_values(|e: AtomEntry| (e.name@, e.atom))
}

/// The screens as (name, rectangle) pairs.
pub open spec fn screen_pairs(s: Seq<ScreenInfo>) -> Seq<(Seq<char>, ScreenRect)> {
    s.map_values(|e: ScreenInfo| (e.name@, e.rect))
}

/// The name a monitor is listed under: its own, else `monitor-` and its index.
pub open spec fn monitor_name(m: MonitorInfo, idx: int) -> Seq<char> {
    match m.name {
        Some(n) => n@,
        None => "monitor-"@ + decimal(idx as nat),
    }
}

/// The rectangle a monitor covers.
pub open spec fn monitor_rect(m: MonitorInfo) -> ScreenRect {
    ScreenRect { x: m.x as isize, y: m.y as isize, width: m.width as isize, height: m.height as isize }
}

/// The monitors by name: a later monitor with a name replaces an earlier one.
pub open spec fn monitors_map(ms: Seq<MonitorInfo>) -> Map<Seq<char>, ScreenRect>
    decreases ms.len(),
{
    if ms.len() == 0 {
        Map::empty()
    } else {
        monitors_map(ms.drop_last()).insert(monitor_name(ms.last(), ms.len() - 1), monitor_rect(ms.last()))
    }
}

/// The rectangle covering the monitors, for a non-empty list.
pub open spec fn monitors_virtual_rect(ms: Seq<MonitorInfo>) -> ScreenRect
    decreases ms.len(),
{
    if ms.len() <= 1 {
        monitor_rect(ms[0])
    } else {
        rect_union(monitors_virtual_rect(ms.drop_last()), monitor_rect(ms.last()))
    }
}

/// The name and rectangle of the last monitor flagged primary.
pub open spec fn last_primary(ms: Seq<MonitorInfo>) -> Option<(Seq<char>, ScreenRect)>
    decreases ms.len(),
{
    if ms.len() == 0 {
        None
    } else if ms.last().primary {
        Some((monitor_name(ms.last(), ms.len() - 1), monitor_rect(ms.last())))
    } else {
        last_primary(ms.drop_last())
    }
}

/// The name of the single screen of a connection without monitor information.
pub open spec fn single_screen_name(default_screen: i32) -> Seq<char> {
    "x11-screen-"@ + signed_decimal(default_screen as int)
}

/// The default screen of a connection: its number, root window, root visual,
/// size and white pixel.
#[derive(Debug, Clone, Copy, PartialEq, Eq, Structural)]
pub struct XScreen {
    pub default_screen: i32,
    pub root_window: u32,
    pub root_visual: u32,
    pub root_width: u16,
    pub root_height: u16,
    pub white_pixel: u32,
}

/// The connection's state.
pub struct XConnection {
    screen: XScreen,
    windows: HashMap<u32, XWindowInfo>,
    atom_cache: Vec<AtomEntry>,
}

impl XConnection {
    /// The default screen.
    pub closed spec fn spec_screen(&self) -> XScreen {
        self.screen
    }

    /// The default screen.
    pub fn screen(&self) -> (r: XScreen)
        ensures
            r == self.spec_screen(),
    {
        self.screen
    }

    /// The atom cache: name to atom.
    pub closed spec fn atoms(&self) -> Map<Seq<char>, u32> {
        pairs_map(atom_pairs(self.atom_cache@))
    }

    /// The windows this connection created and has not destroyed.
    pub closed spec fn windows_map(&self) -> Map<u32, XWindowInfo> {
        self.windows@
    }

    /// The state's internal consistency.
    pub closed spec fn wf(&self) -> bool {
        distinct_keys(atom_pairs(self.atom_cache@))
    }

    /// The connection state for the screen numbered `screen_num` among the
    /// setup's screens `roots`; an error where there is no such screen.
    pub fn create_new(screen_num: i32, roots: &Vec<ScreenSetup>) -> (r: Result<XConnection, XConnectionError>)
        ensures
            match r {
                Ok(c) => {
                    &&& 0 <= screen_num < roots@.len()
                    &&& c.wf()
                    &&& c.spec_screen() == (XScreen {
                        default_screen: screen_num,
                        root_window: roots@[screen_num as int].root,
                        root_visual: roots@[screen_num as int].root_visual,
                        root_width: roots@[screen_num as int].width_in_pixels,
                        root_height: roots@[screen_num as int].height_in_pixels,
                        white_pixel: roots@[screen_num as int].white_pixel,
                    })
                    &&& c.atoms() == Map::<Seq<char>, u32>::empty()
                    &&& c.windows_map() == Map::<u32, XWindowInfo>::empty()
                },
                Err(e) => e == XConnectionError::NoScreens && !(0 <= screen_num < roots@.len()),
            },
    {
        if screen_num < 0 || screen_num as usize >= roots.len() {
            return Err(XConnectionError::NoScreens);
        }
        let screen = roots[screen_num as usize];
        let c = XConnection {
            screen: XScreen {
                default_screen: screen_num,
                root_window: screen.root,
                root_visual: screen.root_visual,
                root_width: screen.width_in_pixels,
                root_height: screen.height_in_pixels,
                white_pixel: screen.white_pixel,
            },
            windows: HashMap::new(),
            atom_cache: Vec::new(),
        };
        assert(atom_pairs(c.atom_cache@) =~= Seq::<(Seq<char>, u32)>::empty());
        assert(pairs_map(atom_pairs(c.atom_cache@)) =~= Map::<Seq<char>, u32>::empty());
        Ok(c)
    }

    fn atom_index(&self, name: &String) -> (r: Option<usize>)
        requires
            self.wf(),
        ensures
            match r {
                Some(i) => i < self.atom_cache@.len() && self.atom_cache@[i as int].name@ == name@,
                None => !self.atoms().contains_key(name@),
            },
    {
        proof { lemma_pairs_map(atom_pairs(self.atom_cache@)); }
        let mut i: usize = 0;
        while i < self.atom_cache.len()
            invariant
                i <= self.atom_cache@.len(),
                forall|j: int| 0 <= j < i ==> self.atom_cache@[j].name@ != name@,
            decreases self.atom_cache@.len() - i,
        {
            if self.atom_cache[i].name == *name {
                return Some(i);
            }
            i = i + 1;
        }
        proof {
            if self.atoms().contains_key(name@) {
                let j = choose|j: int| 0 <= j < atom_pairs(self.atom_cache@).len() && atom_pairs(self.atom_cache@)[j].0 == name@;
                assert(self.atom_cache@[j].name@ == name@);
            }
        }
        None
    }

    /// The cached atom for a name.
    pub fn get_atom(&self, name: &str) -> (r: Option<u32>)
        requires
            self.wf(),
        ensures
            r == (if self.atoms().contains_key(name@) { Some(self.atoms()[name@]) } else { None::<u32> }),
    {
        let key = String::from_str(name);
        proof { lemma_pairs_map(atom_pairs(self.atom_cache@)); }
        match self.atom_index(&key) {
            Some(i) => {
                assert(atom_pairs(self.atom_cache@)[i as int].0 == name@);
                Some(self.atom_cache[i].atom)
            },
            None => None,
        }
    }

    /// Caches the atom that the server interned for a name.
    pub fn record_atom(&mut self, name: &str, atom: u32)
        requires
            old(self).wf(),
        ensures
            final(self).wf(),
            final(self).atoms() == old(self).atoms().insert(name@, atom),
            final(self).windows_map() == old(self).windows_map(),
            final(self).spec_screen() == old(self).spec_screen(),
    {
        let key = String::from_str(name);
        let ghost s0 = atom_pairs(self.atom_cache@);
        proof { lemma_pairs_map(s0); }
        match self.atom_index(&key) {
            Some(i) => {
                let entry = AtomEntry { name: key, atom };
                self.atom_cache.set(i, entry);
                proof {
                    lemma_pairs_update(s0, i as int, (name@, atom));
                    assert(atom_pairs(self.atom_cache@) =~= s0.update(i as int, (name@, atom)));
                }
            },
            None => {
                let entry = AtomEntry { name: key, atom };
                self.atom_cache.push(entry);
                proof {
                    lemma_pairs_push(s0, (name@, atom));
                    assert(atom_pairs(self.atom_cache@) =~= s0.push((name@, atom)));
                }
            },
        }
    }

    /// The cached WM_PROTOCOLS atom.
    pub fn wm_protocols_atom(&self) -> (r: Option<u32>)
        requires
            self.wf(),
        ensures
            r == (if self.atoms().contains_key("WM_PROTOCOLS"@) { Some(self.atoms()["WM_PROTOCOLS"@]) } else { None::<u32> }),
    {
        self.get_atom("WM_PROTOCOLS")
    }

    /// The cached WM_DELETE_WINDOW atom.
    pub fn wm_delete_window_atom(&self) -> (r: Option<u32>)
        requires
            self.wf(),
        ensures
            r == (if self.atoms().contains_key("WM_DELETE_WINDOW"@) { Some(self.atoms()["WM_DELETE_WINDOW"@]) } else { None::<u32> }),
    {
        self.get_atom("WM_DELETE_WINDOW")
    }

    /// The cached _NET_ACTIVE_WINDOW atom.
    pub fn net_active_window_atom(&self) -> (r: Option<u32>)
        requires
            self.wf(),
        ensures
            r == (if self.atoms().contains_key("_NET_ACTIVE_WINDOW"@) { Some(self.atoms()["_NET_ACTIVE_WINDOW"@]) } else { None::<u32> }),
    {
        self.get_atom("_NET_ACTIVE_WINDOW")
    }

    /// The cached _NET_WM_STATE atom.
    pub fn net_wm_state_atom(&self) -> (r: Option<u32>)
        requires
            self.wf(),
        ensures
            r == (if self.atoms().contains_key("_NET_WM_STATE"@) { Some(self.atoms()["_NET_WM_STATE"@]) } else { None::<u32> }),
    {
        self.get_atom("_NET_WM_STATE")
    }

    /// The cached _NET_WM_STATE_MAXIMIZED_HORZ atom.
    pub fn net_wm_state_maximized_horz_atom(&self) -> (r: Option<u32>)
        requires
            self.wf(),
        ensures
            r == (if self.atoms().contains_key("_NET_WM_STATE_MAXIMIZED_HORZ"@) {
                Some(self.atoms()["_NET_WM_STATE_MAXIMIZED_HORZ"@])
            } else {
                None::<u32>
            }),
    {
        self.get_atom("_NET_WM_STATE_MAXIMIZED_HORZ")
    }

    /// The cached _NET_WM_STATE_MAXIMIZED_VERT atom.
    pub fn net_wm_state_maximized_vert_atom(&self) -> (r: Option<u32>)
        requires
            self.wf(),
        ensures
            r == (if self.atoms().contains_key("_NET_WM_STATE_MAXIMIZED_VERT"@) {
                Some(self.atoms()["_NET_WM_STATE_MAXIMIZED_VERT"@])
            } else {
                None::<u32>
            }),
    {
        self.get_atom("_NET_WM_STATE_MAXIMIZED_VERT")
    }

    /// The cached _NET_WM_STATE_FULLSCREEN atom.
    pub fn net_wm_state_fullscreen_atom(&self) -> (r: Option<u32>)
        requires
            self.wf(),
        ensures
            r == (if self.atoms().contains_key("_NET_WM_STATE_FULLSCREEN"@) {
                Some(self.atoms()["_NET_WM_STATE_FULLSCREEN"@])
            } else {
                None::<u32>
            }),
    {
        self.get_atom("_NET_WM_STATE_FULLSCREEN")
    }

    /// Decodes a protocol event with the cached WM_PROTOCOLS and
    /// WM_DELETE_WINDOW atoms (a missing atom decodes no close request).
    pub fn decode_event(&self, event: &XcbEvent) -> (r: X11Event)
        requires
            self.wf(),
        ensures
            r == decoded(
                *event,
                if self.atoms().contains_key("WM_PROTOCOLS"@) { Some(self.atoms()["WM_PROTOCOLS"@]) } else { None::<u32> },
                if self.atoms().contains_key("WM_DELETE_WINDOW"@) { Some(self.atoms()["WM_DELETE_WINDOW"@]) } else { None::<u32> },
            ),
    {
        X11Event::from_xcb_event(event, self.wm_protocols_atom(), self.wm_delete_window_atom())
    }
}


/// The requests that configure a window's position and size, for the given
/// values only; `None` where no value is given.
pub open spec fn configure_values(x: Option<i16>, y: Option<i16>, width: Option<u16>, height: Option<u16>) -> Seq<ConfigWindow> {
    (match x { Some(v) => seq![ConfigWindow::X(v as i32)], None => Seq::empty() })
    + (match y { Some(v) => seq![ConfigWindow::Y(v as i32)], None => Seq::empty() })
    + (match width { Some(v) => seq![ConfigWindow::Width(v as u32)], None => Seq::empty() })
    + (match height { Some(v) => seq![ConfigWindow::Height(v as u32)], None => Seq::empty() })
}

impl XConnection {
    /// The request that creates a top-level window `window_id` (an id the
    /// connection generated) at the given place and size, on the root window
    /// with the root visual, no border, a white background and the top-level
    /// event mask, followed by the request that lists WM_DELETE_WINDOW in its
    /// WM_PROTOCOLS.
    pub fn create_simple_window(
        &self,
        window_id: u32,
        x: i16,
        y: i16,
        width: u16,
        height: u16,
        wm_protocols: u32,
        wm_delete_window: u32,
    ) -> (r: Vec<XRequest>)
        ensures
            r@.len() == 2,
            r@[0] == (XRequest::CreateWindow {
                wid: window_id,
                parent: self.spec_screen().root_window,
                x,
                y,
                width,
                height,
                border_width: 0,
                visual: self.spec_screen().root_visual,
                back_pixel: self.spec_screen().white_pixel,
                event_mask: TOPLEVEL_EVENT_MASK,
            }),
            r@[1] matches XRequest::ChangeProperty { window, property, property_type, data }
                && window == window_id && property == wm_protocols && property_type == ATOM_ATOM
                && (data matches PropertyData::Atoms(atoms) && atoms@ == seq![wm_delete_window]),
    {
        let mut requests: Vec<XRequest> = Vec::new();
        requests.push(XRequest::CreateWindow {
            wid: window_id,
            parent: self.screen.root_window,
            x,
            y,
            width,
            height,
            border_width: 0,
            visual: self.screen.root_visual,
            back_pixel: self.screen.white_pixel,
            event_mask: toplevel_event_mask(),
        });
        let mut atoms: Vec<u32> = Vec::new();
        atoms.push(wm_delete_window);
        requests.push(XRequest::ChangeProperty {
            window: window_id,
            property: wm_protocols,
            property_type: ATOM_ATOM,
            data: PropertyData::Atoms(atoms),
        });
        requests
    }

    /// Records a window that `create_simple_window` created, with its size and
    /// the root visual.
    pub fn window_created(&mut self, window: u32, width: u16, height: u16)
        ensures
            final(self).windows_map() == old(self).windows_map().insert(window, XWindowInfo {
                window,
                width: width as u32,
                height: height as u32,
                visual_id: old(self).spec_screen().root_visual,
                colormap: 0,
            }),
            final(self).atoms() == old(self).atoms(),
            final(self).wf() == old(self).wf(),
            final(self).spec_screen() == old(self).spec_screen(),
    {
        let info = XWindowInfo {
            window,
            width: width as u32,
            height: height as u32,
            visual_id: self.screen.root_visual,
            colormap: 0,
        };
        self.windows.insert(window, info);
    }

    /// Forgets a window that was destroyed.
    pub fn window_destroyed(&mut self, window: u32)
        ensures
            final(self).windows_map() == old(self).windows_map().remove(window),
            final(self).atoms() == old(self).atoms(),
            final(self).wf() == old(self).wf(),
            final(self).spec_screen() == old(self).spec_screen(),
    {
        self.windows.remove(&window);
    }

    /// The request that maps a window.
    pub fn map_window(&self, window: u32) -> (r: XRequest)
        ensures
            r == (XRequest::MapWindow { window }),
    {
        XRequest::MapWindow { window }
    }

    /// The request that unmaps a window.
    pub fn unmap_window(&self, window: u32) -> (r: XRequest)
        ensures
            r == (XRequest::UnmapWindow { window }),
    {
        XRequest::UnmapWindow { window }
    }

    /// The request that destroys a window.
    pub fn destroy_window(&self, window: u32) -> (r: XRequest)
        ensures
            r == (XRequest::DestroyWindow { window }),
    {
        XRequest::DestroyWindow { window }
    }

    /// The request that moves and resizes a window, with only the given
    /// values, in the order x, y, width, height; none where no value is given.
    pub fn configure_window(
        &self,
        window: u32,
        x: Option<i16>,
        y: Option<i16>,
        width: Option<u16>,
        height: Option<u16>,
    ) -> (r: Option<XRequest>)
        ensures
            configure_values(x, y, width, height).len() == 0 ==> r is None,
            configure_values(x, y, width, height).len() > 0 ==> (r matches Some(XRequest::ConfigureWindow { window: w, values })
                && w == window && values@ == configure_values(x, y, width, height)),
    {
        let mut values: Vec<ConfigWindow> = Vec::new();
        if let Some(x) = x {
            values.push(ConfigWindow::X(x as i32));
        }
        if let Some(y) = y {
            values.push(ConfigWindow::Y(y as i32));
        }
        if let Some(width) = width {
            values.push(ConfigWindow::Width(width as u32));
        }
        if let Some(height) = height {
            values.push(ConfigWindow::Height(height as u32));
        }
        assert(values@ =~= configure_values(x, y, width, height));
        if values.len() == 0 {
            None
        } else {
            Some(XRequest::ConfigureWindow { window, values })
        }
    }

    /// The requests that set a window's title: _NET_WM_NAME as UTF8_STRING,
    /// then WM_NAME as STRING, both to the title's text.
    pub fn set_window_title(&self, window: u32, title: &str, net_wm_name: u32, utf8_string: u32) -> (r: Vec<XRequest>)
        ensures
            r@.len() == 2,
            r@[0] matches XRequest::ChangeProperty { window: w, property, property_type, data }
                && w == window && property == net_wm_name && property_type == utf8_string
                && (data matches PropertyData::Text(t) && t@ == title@),
            r@[1] matches XRequest::ChangeProperty { window: w, property, property_type, data }
                && w == window && property == ATOM_WM_NAME && property_type == ATOM_STRING
                && (data matches PropertyData::Text(t) && t@ == title@),
    {
        let mut requests: Vec<XRequest> = Vec::new();
        requests.push(XRequest::ChangeProperty {
            window,
            property: net_wm_name,
            property_type: utf8_string,
            data: PropertyData::Text(String::from_str(title)),
        });
        requests.push(XRequest::ChangeProperty {
            window,
            property: ATOM_WM_NAME,
            property_type: ATOM_STRING,
            data: PropertyData::Text(String::from_str(title)),
        });
        requests
    }

    /// The request that gives a window the input focus.
    pub fn set_input_focus(&self, window: u32) -> (r: XRequest)
        ensures
            r == (XRequest::SetInputFocus { focus: window }),
    {
        XRequest::SetInputFocus { focus: window }
    }

    /// The request that raises a window above its siblings.
    pub fn raise_window(&self, window: u32) -> (r: XRequest)
        ensures
            r matches XRequest::ConfigureWindow { window: w, values } && w == window
                && values@ == seq![ConfigWindow::StackModeAbove],
    {
        let mut values: Vec<ConfigWindow> = Vec::new();
        values.push(ConfigWindow::StackModeAbove);
        XRequest::ConfigureWindow { window, values }
    }

    /// The request that sends a 32-bit ClientMessage about `window` to
    /// `destination`.
    pub fn send_client_message(&self, destination: u32, window: u32, message_type: u32, data: [u32; 5]) -> (r: XRequest)
        ensures
            r == (XRequest::SendEvent { destination, event: ClientMessage { window, message_type, data } }),
    {
        XRequest::SendEvent { destination, event: ClientMessage { window, message_type, data } }
    }

    /// The request that asks the window manager to change a window's
    /// _NET_WM_STATE: `action` (remove 0, add 1, toggle 2) on one or two state
    /// atoms, from a normal application (source 1).
    pub fn change_net_wm_state(&self, window: u32, action: u32, first: u32, second: u32, net_wm_state: u32) -> (r: XRequest)
        ensures
            r == (XRequest::SendEvent {
                destination: self.spec_screen().root_window,
                event: ClientMessage { window, message_type: net_wm_state, data: [action, first, second, 1, 0] },
            }),
    {
        self.send_client_message(self.screen.root_window, window, net_wm_state, [action, first, second, 1, 0])
    }

    /// The request that asks the window manager to activate a window, from a
    /// normal application (source 1), at the current time.
    pub fn request_activate_window(&self, window: u32, net_active_window: u32) -> (r: XRequest)
        ensures
            r == (XRequest::SendEvent {
                destination: self.spec_screen().root_window,
                event: ClientMessage { window, message_type: net_active_window, data: [1, CURRENT_TIME, window, 0, 0] },
            }),
    {
        self.send_client_message(self.screen.root_window, window, net_active_window, [1, CURRENT_TIME, window, 0, 0])
    }

    /// The rectangle of the root window.
    pub fn root_rect(&self) -> (r: ScreenRect)
        ensures
            r == (ScreenRect {
                x: 0,
                y: 0,
                width: self.spec_screen().root_width as isize,
                height: self.spec_screen().root_height as isize,
            }),
    {
        ScreenRect { x: 0, y: 0, width: self.screen.root_width as isize, height: self.screen.root_height as isize }
    }
}


/// The screens' names are distinct and they map each name to its rectangle.
pub open spec fn screens_by_name(s: Seq<ScreenInfo>, m: Map<Seq<char>, ScreenRect>) -> bool {
    distinct_keys(screen_pairs(s)) && pairs_map(screen_pairs(s)) == m
}

/// Whether a screen has this name and rectangle.
pub open spec fn screen_is(info: ScreenInfo, name: Seq<char>, rect: ScreenRect) -> bool {
    info.name@ == name && info.rect == rect && info.max_fps is None
}

/// No screen of the list reports a refresh limit.
pub open spec fn no_fps_limits(s: Seq<ScreenInfo>) -> bool {
    forall|i: int| 0 <= i < s.len() ==> (#[trigger] s[i]).max_fps is None
}

fn insert_screen(by_name: &mut Vec<ScreenInfo>, info: ScreenInfo)
    requires
        distinct_keys(screen_pairs(old(by_name)@)),
        no_fps_limits(old(by_name)@),
        info.max_fps is None,
    ensures
        distinct_keys(screen_pairs(final(by_name)@)),
        no_fps_limits(final(by_name)@),
        pairs_map(screen_pairs(final(by_name)@)) == pairs_map(screen_pairs(old(by_name)@)).insert(info.name@, info.rect),
{
    let ghost s0 = screen_pairs(by_name@);
    let ghost kv = (info.name@, info.rect);
    proof { lemma_pairs_map(s0); }
    let mut i: usize = 0;
    while i < by_name.len()
        invariant
            i <= by_name@.len(),
            s0 == screen_pairs(by_name@),
            s0 == screen_pairs(old(by_name)@),
            kv == (info.name@, info.rect),
            distinct_keys(s0),
            no_fps_limits(by_name@),
            info.max_fps is None,
            forall|j: int| 0 <= j < i ==> by_name@[j].name@ != info.name@,
        decreases by_name@.len() - i,
    {
        if by_name[i].name == info.name {
            assert(screen_pairs(by_name@)[i as int] == (by_name@[i as int].name@, by_name@[i as int].rect));
            assert(s0[i as int].0 == kv.0);
            by_name.set(i, info);
            proof {
                lemma_pairs_update(s0, i as int, kv);
                assert(screen_pairs(by_name@) =~= s0.update(i as int, kv));
            }
            return;
        }
        i = i + 1;
    }
    proof {
        if pairs_map(s0).contains_key(kv.0) {
            let j = choose|j: int| 0 <= j < s0.len() && s0[j].0 == kv.0;
            assert(by_name@[j].name@ == info.name@);
        }
    }
    by_name.push(info);
    proof {
        lemma_pairs_push(s0, kv);
        assert(screen_pairs(by_name@) =~= s0.push(kv));
    }
}

impl XConnection {
    /// The layout of a connection without monitor information: one screen,
    /// named `x11-screen-` and the default screen's number, covering the root
    /// window; it is the main and the active screen.
    pub fn single_screen(&self) -> (r: Screens)
        ensures
            screen_is(r.main, single_screen_name(self.spec_screen().default_screen), r.virtual_rect),
            r.virtual_rect == (ScreenRect {
                x: 0,
                y: 0,
                width: self.spec_screen().root_width as isize,
                height: self.spec_screen().root_height as isize,
            }),
            r.active == r.main,
            r.by_name@.len() == 1,
            r.by_name@[0] == r.main,
    {
        let mut name = String::from_str("x11-screen-");
        append_signed_decimal(&mut name, self.screen.default_screen as i64);
        let rect = self.root_rect();
        let main = ScreenInfo { name, rect, max_fps: None };
        let mut by_name: Vec<ScreenInfo> = Vec::new();
        by_name.push(main.clone());
        Screens { active: main.clone(), main, by_name, virtual_rect: rect }
    }

    /// The screen layout from the monitors that RandR reports (`None` where
    /// the request failed). Without monitors it is `single_screen`. Else the
    /// screens are the monitors by name (a later monitor with a name replaces
    /// an earlier one), the virtual rectangle covers every monitor, the active
    /// screen is one of the screens, and the main screen is the last monitor
    /// flagged primary, or the active screen where none is.
    pub fn screens(&self, monitors: Option<Vec<MonitorInfo>>) -> (r: Screens)
        ensures
            match monitors {
                Some(ms) if ms@.len() > 0 => {
                    &&& screens_by_name(r.by_name@, monitors_map(ms@))
                &&& no_fps_limits(r.by_name@)
                    &&& r.virtual_rect == monitors_virtual_rect(ms@)
                    &&& exists|i: int| 0 <= i < r.by_name@.len() && r.by_name@[i] == r.active
                    &&& match last_primary(ms@) {
                        Some((name, rect)) => screen_is(r.main, name, rect),
                        None => r.main == r.active,
                    }
                },
                _ => {
                    &&& screen_is(r.main, single_screen_name(self.spec_screen().default_screen), r.virtual_rect)
                    &&& r.virtual_rect == (ScreenRect {
                        x: 0,
                        y: 0,
                        width: self.spec_screen().root_width as isize,
                        height: self.spec_screen().root_height as isize,
                    })
                    &&& r.active == r.main
                    &&& r.by_name@.len() == 1
                    &&& r.by_name@[0] == r.main
                },
            },
    {
        let ms = match monitors {
            None => return self.single_screen(),
            Some(ms) => ms,
        };
        if ms.len() == 0 {
            return self.single_screen();
        }
        let mut by_name: Vec<ScreenInfo> = Vec::new();
        let mut virtual_rect: Option<ScreenRect> = None;
        let mut main: Option<ScreenInfo> = None;
        let mut idx: usize = 0;
        assert(screen_pairs(by_name@) =~= Seq::<(Seq<char>, ScreenRect)>::empty());
        assert(ms@.take(0) =~= Seq::<MonitorInfo>::empty());
        assert(pairs_map(screen_pairs(by_name@)) =~= monitors_map(ms@.take(0)));
        while idx < ms.len()
            invariant
                idx <= ms@.len(),
                distinct_keys(screen_pairs(by_name@)),
                no_fps_limits(by_name@),
                pairs_map(screen_pairs(by_name@)) == monitors_map(ms@.take(idx as int)),
                idx == 0 ==> virtual_rect is None,
                idx > 0 ==> (virtual_rect matches Some(v) && v == monitors_virtual_rect(ms@.take(idx as int)) && bounded(v)),
                main is None ==> last_primary(ms@.take(idx as int)) is None,
                main matches Some(m) ==> last_primary(ms@.take(idx as int)) == Some((m.name@, m.rect)) && m.max_fps is None,
            decreases ms@.len() - idx,
        {
            let m = &ms[idx];
            let ghost t = ms@.take(idx + 1);
            assert(t.drop_last() =~= ms@.take(idx as int));
            assert(t.last() == ms@[idx as int]);
            let name: String = match &m.name {
                Some(n) => n.clone(),
                None => {
                    proof { reveal_strlit("monitor-"); }
                    let mut s = String::from_str("monitor-");
                    append_decimal(&mut s, idx as u64);
                    s
                },
            };
            assert(name@ == monitor_name(t.last(), t.len() - 1));
            let rect = ScreenRect { x: m.x as isize, y: m.y as isize, width: m.width as isize, height: m.height as isize };
            assert(rect == monitor_rect(t.last()));
            virtual_rect = Some(match virtual_rect {
                Some(v) => {
                    proof { lemma_union_bounded(v, rect); }
                    union(v, rect)
                },
                None => rect,
            });
            if m.primary {
                main = Some(ScreenInfo { name: name.clone(), rect, max_fps: None });
            }
            insert_screen(&mut by_name, ScreenInfo { name, rect, max_fps: None });
            idx = idx + 1;
        }
        assert(ms@.take(ms@.len() as int) =~= ms@);
        proof {
            lemma_pairs_map(screen_pairs(by_name@));
            let last = ms@.len() - 1;
            assert(monitors_map(ms@).contains_key(monitor_name(ms@.last(), last)));
            let j = choose|j: int| 0 <= j < screen_pairs(by_name@).len() && screen_pairs(by_name@)[j].0 == monitor_name(ms@.last(), last);
        }
        let active = by_name[0].clone();
        let main = match main {
            Some(m) => m,
            None => active.clone(),
        };
        let virtual_rect = match virtual_rect {
            Some(v) => v,
            None => active.rect,
        };
        assert(by_name@[0] == active);
        let r = Screens { main, active, by_name, virtual_rect };
        assert(r.by_name@.len() > 0 && r.by_name@[0] == r.active);
        assert(exists|i: int| 0 <= i < r.by_name@.len() && r.by_name@[i] == r.active);
        r
    }
}

} // verus!

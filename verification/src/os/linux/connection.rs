//! The Linux connection: the registry of open windows and the routing of X11
//! events to them.

use vstd::prelude::*;
use crate::input::{
    shift_normalized, KeyButMask, KeyCode, Modifiers, MouseButtons, MouseEvent, MouseEventKind, MousePress, KEY_BUT_BUTTON1,
    KEY_BUT_BUTTON2, KEY_BUT_BUTTON3, KEY_BUT_CONTROL, KEY_BUT_MOD1, KEY_BUT_MOD4, KEY_BUT_MOD5, KEY_BUT_SHIFT,
};
use crate::os::x11::events::X11Event;
use std::collections::HashMap;
use vstd::std_specs::hash::spec_hash_map_iter;
use vstd::std_specs::iter::IteratorSpec;
use super::keysyms::{key_code_from_keysym, keysym_key_code};

verus! {

broadcast use vstd::std_specs::hash::group_hash_axioms;

/// What the connection knows of an open window: its id, the X window that
/// backs it, and whether it was asked to close.
#[derive(Debug, Clone, Copy, PartialEq, Eq, Structural)]
pub struct WindowRecord {
    pub id: usize,
    pub xcb_window: u32,
    pub should_close: bool,
}

/// The events that the connection delivers to a window.
#[derive(Debug, Clone, Copy, PartialEq, Eq, Structural)]
pub enum WindowEvent {
    NeedRepaint,
    Resized { pixel_width: usize, pixel_height: usize, dpi: usize },
    FocusChanged(bool),
    Destroyed,
    MouseEvent(MouseEvent),
    MouseLeave,
    CloseRequested,
    SetInnerSizeCompleted,
}

/// An event bound for one window: the window's id, the event, and whether the
/// window leaves the registry once the event is handed over (it had been
/// asked to close).
#[derive(Debug, Clone, Copy, PartialEq, Eq, Structural)]
pub struct Delivery {
    pub window_id: usize,
    pub event: WindowEvent,
    pub remove_window: bool,
}

/// A key event before the keyboard layout has been applied.
#[derive(Debug, Clone, Copy, PartialEq, Eq, Structural)]
pub struct RawKeyEvent {
    pub key: KeyCode,
    pub modifiers: Modifiers,
    pub raw_code: u32,
    pub repeat_count: u16,
    pub key_is_down: bool,
}

/// A key event after the keyboard layout: the key and modifiers with shift
/// normalised, and the raw event it came from.
#[derive(Debug, Clone, Copy, PartialEq, Eq, Structural)]
pub struct KeyEvent {
    pub key: KeyCode,
    pub modifiers: Modifiers,
    pub repeat_count: u16,
    pub key_is_down: bool,
    pub raw: Option<RawKeyEvent>,
}

/// A raw key event bound for one window.
#[derive(Debug, Clone, Copy, PartialEq, Eq, Structural)]
pub struct KeyDelivery {
    pub window_id: usize,
    pub event: RawKeyEvent,
}

/// What the event pump does with one X11 event.
#[derive(Debug, Clone, Copy, PartialEq, Eq, Structural)]
pub enum PumpAction {
    /// Hand an event to a window.
    Deliver(Delivery),
    /// Translate a key through the keyboard state, then call `dispatch_key_event`.
    TranslateKey { window: u32, detail: u8, state: KeyButMask, key_is_down: bool },
    /// Nothing to do.
    Ignore,
}

/// The appearance the desktop asks for.
#[derive(Debug, Clone, Copy, PartialEq, Eq, Structural)]
pub enum Appearance {
    Light,
    Dark,
    LightHighContrast,
    DarkHighContrast,
}

/// Whether window `id` is registered and backed by `xcb_window`.
pub open spec fn backs(m: Map<usize, WindowRecord>, id: usize, xcb_window: u32) -> bool {
    m.contains_key(id) && m[id].xcb_window == xcb_window
}

/// The registry after an event was handed to window `id`: the window leaves it
/// where it had been asked to close.
pub open spec fn after_delivery(m: Map<usize, WindowRecord>, id: usize) -> Map<usize, WindowRecord> {
    if m[id].should_close { m.remove(id) } else { m }
}

/// How the registry `new` and the delivery `d` follow from the registry `old`
/// when `event` is routed to a window backed by `xcb_window`: nothing happens
/// where no window is backed by it; else the event goes to such a window, which
/// leaves the registry where it had been asked to close.
pub open spec fn routed(
    old: Map<usize, WindowRecord>,
    new: Map<usize, WindowRecord>,
    xcb_window: u32,
    event: WindowEvent,
    d: Option<Delivery>,
) -> bool {
    &&& (d is None <==> forall|id: usize| !backs(old, id, xcb_window))
    &&& (d is None ==> new == old)
    &&& (d matches Some(x) ==> {
        &&& backs(old, x.window_id, xcb_window)
        &&& x.event == event
        &&& x.remove_window == old[x.window_id].should_close
        &&& new == after_delivery(old, x.window_id)
    })
}

/// The delivery that a pump action makes, if any.
pub open spec fn delivery_of(a: PumpAction) -> Option<Delivery> {
    match a {
        PumpAction::Deliver(d) => Some(d),
        _ => None,
    }
}

/// The modifiers that a key/button state reports: Shift, Control, Mod1 (Alt)
/// and Mod4 (Super).
pub open spec fn state_modifiers(state: KeyButMask) -> Modifiers {
    Modifiers {
        shift: state.has(KEY_BUT_SHIFT),
        ctrl: state.has(KEY_BUT_CONTROL),
        alt: state.has(KEY_BUT_MOD1),
        super_key: state.has(KEY_BUT_MOD4),
    }
}

/// The mouse buttons that a key/button state reports held.
pub open spec fn state_buttons(state: KeyButMask) -> MouseButtons {
    MouseButtons {
        left: state.has(KEY_BUT_BUTTON1),
        middle: state.has(KEY_BUT_BUTTON2),
        right: state.has(KEY_BUT_BUTTON3),
    }
}

/// The button that a button event's detail names, for the three pressable
/// buttons.
pub open spec fn press_of_detail(detail: u8) -> Option<MousePress> {
    if detail == 1 { Some(MousePress::Left) }
    else if detail == 2 { Some(MousePress::Middle) }
    else if detail == 3 { Some(MousePress::Right) }
    else { None }
}

/// The wheel movement that a button event's detail names: buttons 4 and 5 turn
/// the vertical wheel up and down, 6 and 7 the horizontal one.
pub open spec fn wheel_of_detail(detail: u8) -> Option<MouseEventKind> {
    if detail == 4 { Some(MouseEventKind::VertWheel(1i16)) }
    else if detail == 5 { Some(MouseEventKind::VertWheel(-1i16)) }
    else if detail == 6 { Some(MouseEventKind::HorzWheel(1i16)) }
    else if detail == 7 { Some(MouseEventKind::HorzWheel(-1i16)) }
    else { None }
}

/// The state bit of a pressable button.
pub open spec fn button_bit(press: MousePress) -> u32 {
    match press {
        MousePress::Left => KEY_BUT_BUTTON1,
        MousePress::Middle => KEY_BUT_BUTTON2,
        MousePress::Right => KEY_BUT_BUTTON3,
    }
}

/// The mouse event for a kind, a key/button state and the pointer position.
pub open spec fn mouse_event_of(kind: MouseEventKind, state: KeyButMask, x: i16, y: i16, root_x: i16, root_y: i16) -> MouseEvent {
    MouseEvent {
        kind,
        x: x as isize,
        y: y as isize,
        screen_x: root_x as isize,
        screen_y: root_y as isize,
        mouse_buttons: state_buttons(state),
        modifiers: state_modifiers(state),
    }
}

/// The window event, and the X window it is for, that an X11 event becomes;
/// `None` for key events (which go through the keyboard state) and for events
/// that no window hears of.
pub open spec fn window_event_of(event: X11Event, dpi: usize) -> Option<(u32, WindowEvent)> {
    match event {
        X11Event::Expose { window, .. } => Some((window, WindowEvent::NeedRepaint)),
        X11Event::ConfigureNotify { window, width, height, .. } =>
            Some((window, WindowEvent::Resized { pixel_width: width as usize, pixel_height: height as usize, dpi })),
        X11Event::FocusIn { window } => Some((window, WindowEvent::FocusChanged(true))),
        X11Event::FocusOut { window } => Some((window, WindowEvent::FocusChanged(false))),
        X11Event::Destroy { window } => Some((window, WindowEvent::Destroyed)),
        X11Event::ButtonPress { window, detail, state, x, y, root_x, root_y } =>
            match wheel_of_detail(detail) {
                Some(kind) => Some((window, WindowEvent::MouseEvent(mouse_event_of(kind, state, x, y, root_x, root_y)))),
                None => match press_of_detail(detail) {
                    Some(press) => Some((window, WindowEvent::MouseEvent(mouse_event_of(
                        MouseEventKind::Press(press), KeyButMask { bits: state.bits | button_bit(press) }, x, y, root_x, root_y)))),
                    None => None,
                },
            },
        X11Event::ButtonRelease { window, detail, state, x, y, root_x, root_y } =>
            match press_of_detail(detail) {
                Some(press) => Some((window, WindowEvent::MouseEvent(mouse_event_of(
                    MouseEventKind::Release(press), KeyButMask { bits: state.bits & !button_bit(press) }, x, y, root_x, root_y)))),
                None => None,
            },
        X11Event::MotionNotify { window, state, x, y, root_x, root_y } =>
            Some((window, WindowEvent::MouseEvent(mouse_event_of(MouseEventKind::Move, state, x, y, root_x, root_y)))),
        X11Event::EnterNotify { window, x, y, root_x, root_y } =>
            Some((window, WindowEvent::MouseEvent(mouse_event_of(MouseEventKind::Move, KeyButMask { bits: 0 }, x, y, root_x, root_y)))),
        X11Event::LeaveNotify { window, .. } => Some((window, WindowEvent::MouseLeave)),
        X11Event::CloseRequested { window } => Some((window, WindowEvent::CloseRequested)),
        _ => None,
    }
}

/// The position in a key's keysym list for a state: two entries per group,
/// Mod5 selecting the second group and Shift the second level.
pub open spec fn keysym_index(state: KeyButMask) -> int {
    (if state.has(KEY_BUT_MOD5) { 2int } else { 0int }) + (if state.has(KEY_BUT_SHIFT) { 1int } else { 0int })
}

/// The keysym that a keyboard-mapping reply gives for a key in a state: the
/// entry for the state's group (Mod5) and level (Shift), else the entry for
/// the level in the first group, else the first entry, else 0.
pub open spec fn mapped_keysym(keysyms: Seq<u32>, state: KeyButMask) -> u32 {
    let shift: int = if state.has(KEY_BUT_SHIFT) { 1int } else { 0int };
    if keysym_index(state) < keysyms.len() {
        keysyms[keysym_index(state)]
    } else if shift < keysyms.len() {
        keysyms[shift]
    } else if keysyms.len() > 0 {
        keysyms[0]
    } else {
        0
    }
}

/// The connection's view of the windows it serves.
pub struct LinuxConnection {
    windows: HashMap<usize, WindowRecord>,
    next_window_id: usize,
    terminate_requested: bool,
}

impl LinuxConnection {
    /// The registry: window id to record.
    pub closed spec fn windows_map(&self) -> Map<usize, WindowRecord> {
        self.windows@
    }

    /// The id that the next window receives.
    pub closed spec fn next_id(&self) -> usize {
        self.next_window_id
    }

    /// Whether the message loop was asked to stop.
    pub closed spec fn terminating(&self) -> bool {
        self.terminate_requested
    }

    /// The registry's internal consistency: each record is filed under its
    /// own id.
    pub closed spec fn wf(&self) -> bool {
        forall|id: usize| #[trigger] self.windows@.contains_key(id) ==> self.windows@[id].id == id
    }

    /// A connection with no windows, whose first window gets id 1.
    pub fn create_new() -> (c: LinuxConnection)
        ensures
            c.wf(),
            c.windows_map() == Map::<usize, WindowRecord>::empty(),
            c.next_id() == 1,
            !c.terminating(),
    {
        LinuxConnection { windows: HashMap::new(), next_window_id: 1, terminate_requested: false }
    }

    /// Takes the next window id; ids count up from 1 and wrap at the top of
    /// `usize`.
    pub fn next_window_id(&mut self) -> (id: usize)
        ensures
            id == old(self).next_id(),
            final(self).next_id() == (if id == usize::MAX { 0 } else { (id + 1) as usize }),
            final(self).windows_map() == old(self).windows_map(),
            final(self).wf() == old(self).wf(),
            final(self).terminating() == old(self).terminating(),
    {
        let id = self.next_window_id;
        self.next_window_id = if id == usize::MAX { 0 } else { id + 1 };
        id
    }

    /// The record of the window with this id.
    pub fn window_by_id(&self, window_id: usize) -> (r: Option<WindowRecord>)
        requires
            self.wf(),
        ensures
            r == (if self.windows_map().contains_key(window_id) {
                Some(self.windows_map()[window_id])
            } else {
                None::<WindowRecord>
            }),
            r matches Some(rec) ==> rec.id == window_id,
    {
        match self.windows.get(&window_id) {
            Some(rec) => Some(*rec),
            None => None,
        }
    }

    /// Records the window with this id as backed by `xcb_window`, replacing
    /// any earlier record for the id.
    pub(crate) fn register_window(&mut self, window_id: usize, xcb_window: u32)
        requires
            old(self).wf(),
        ensures
            final(self).wf(),
            final(self).windows_map() == old(self).windows_map().insert(
                window_id,
                WindowRecord { id: window_id, xcb_window, should_close: false },
            ),
            final(self).next_id() == old(self).next_id(),
            final(self).terminating() == old(self).terminating(),
    {
        let rec = WindowRecord { id: window_id, xcb_window, should_close: false };
        self.windows.insert(window_id, rec);
    }

    fn remove_record(&mut self, window_id: usize)
        requires
            old(self).wf(),
        ensures
            final(self).wf(),
            final(self).windows_map() == old(self).windows_map().remove(window_id),
            final(self).next_id() == old(self).next_id(),
            final(self).terminating() == old(self).terminating(),
    {
        self.windows.remove(&window_id);
    }

    /// Marks the window with this id as asked to close; it leaves the registry
    /// with the next event delivered to it.
    pub fn mark_should_close(&mut self, window_id: usize)
        requires
            old(self).wf(),
        ensures
            final(self).wf(),
            final(self).windows_map() == (if old(self).windows_map().contains_key(window_id) {
                old(self).windows_map().insert(window_id, WindowRecord {
                    should_close: true,
                    ..old(self).windows_map()[window_id]
                })
            } else {
                old(self).windows_map()
            }),
            final(self).next_id() == old(self).next_id(),
            final(self).terminating() == old(self).terminating(),
    {
        match self.window_by_id(window_id) {
            Some(rec) => {
                let closing = WindowRecord { id: rec.id, xcb_window: rec.xcb_window, should_close: true };
                self.windows.insert(window_id, closing);
            },
            None => {},
        }
    }

    /// The id of a window backed by `xcb_window`.
    pub fn window_id_by_xcb_window(&self, xcb_window: u32) -> (r: Option<usize>)
        requires
            self.wf(),
        ensures
            r matches Some(id) ==> backs(self.windows_map(), id, xcb_window),
            r is None <==> forall|id: usize| !backs(self.windows_map(), id, xcb_window),
    {
        let ghost m = self.windows@;
        for entry in it: self.windows.iter()
            invariant
                m == self.windows@,
                it.seq() == spec_hash_map_iter(&self.windows).remaining(),
                forall|j: int| 0 <= j < it.index() ==> (*it.seq()[j].1).xcb_window != xcb_window,
        {
            let (id, rec) = entry;
            if rec.xcb_window == xcb_window {
                let found = *id;
                proof {
                    let v = spec_hash_map_iter(&self.windows).remaining();
                    let k = it.index();
                    assert(m.contains_key(*v[k].0) && m[*v[k].0] == *v[k].1);
                    assert(found == *v[k].0 && *rec == *v[k].1);
                    assert(backs(self.windows_map(), found, xcb_window));
                }
                return Some(found);
            }
        }
        proof {
            let v = spec_hash_map_iter(&self.windows).remaining();
            assert forall|id: usize| !backs(self.windows_map(), id, xcb_window) by {
                if m.contains_key(id) {
                    assert(v.contains((&id, &m[id])));
                    let j = choose|j: int| 0 <= j < v.len() && v[j] == (&id, &m[id]);
                    assert((*v[j].1).xcb_window != xcb_window);
                }
            }
        }
        None
    }

    /// Hands `event` to the window backed by `xcb_window`, if there is one; a
    /// window that had been asked to close leaves the registry with it.
    pub fn dispatch_event_to_window(&mut self, xcb_window: u32, event: WindowEvent) -> (r: Option<Delivery>)
        requires
            old(self).wf(),
        ensures
            final(self).wf(),
            final(self).next_id() == old(self).next_id(),
            final(self).terminating() == old(self).terminating(),
            routed(old(self).windows_map(), final(self).windows_map(), xcb_window, event, r),
    {
        match self.window_id_by_xcb_window(xcb_window) {
            None => None,
            Some(window_id) => {
                let rec = self.window_by_id(window_id);
                let closing = match rec {
                    Some(r) => r.should_close,
                    None => false,
                };
                if closing {
                    self.remove_record(window_id);
                }
                Some(Delivery { window_id, event, remove_window: closing })
            },
        }
    }

    /// The modifiers held in a key/button state.
    pub fn modifiers_from_state(&self, state: KeyButMask) -> (m: Modifiers)
        ensures
            m == state_modifiers(state),
    {
        Modifiers {
            shift: state.contains(KEY_BUT_SHIFT),
            ctrl: state.contains(KEY_BUT_CONTROL),
            alt: state.contains(KEY_BUT_MOD1),
            super_key: state.contains(KEY_BUT_MOD4),
        }
    }

    /// The mouse buttons held in a key/button state.
    pub fn mouse_buttons_from_state(&self, state: KeyButMask) -> (b: MouseButtons)
        ensures
            b == state_buttons(state),
    {
        MouseButtons {
            left: state.contains(KEY_BUT_BUTTON1),
            middle: state.contains(KEY_BUT_BUTTON2),
            right: state.contains(KEY_BUT_BUTTON3),
        }
    }

    /// The pressable button that a button event's detail names.
    pub fn mouse_press_from_detail(&self, detail: u8) -> (r: Option<MousePress>)
        ensures
            r == press_of_detail(detail),
    {
        match detail {
            1 => Some(MousePress::Left),
            2 => Some(MousePress::Middle),
            3 => Some(MousePress::Right),
            _ => None,
        }
    }

    /// The wheel movement that a button event's detail names.
    pub fn wheel_kind_from_detail(&self, detail: u8) -> (r: Option<MouseEventKind>)
        ensures
            r == wheel_of_detail(detail),
    {
        match detail {
            4 => Some(MouseEventKind::VertWheel(1)),
            5 => Some(MouseEventKind::VertWheel(-1)),
            6 => Some(MouseEventKind::HorzWheel(1)),
            7 => Some(MouseEventKind::HorzWheel(-1)),
            _ => None,
        }
    }

    /// Builds the mouse event for a kind, state and position and hands it to
    /// the window backed by `xcb_window`.
    pub fn dispatch_mouse_event(
        &mut self,
        xcb_window: u32,
        kind: MouseEventKind,
        state: KeyButMask,
        x: i16,
        y: i16,
        root_x: i16,
        root_y: i16,
    ) -> (r: Option<Delivery>)
        requires
            old(self).wf(),
        ensures
            final(self).wf(),
            final(self).next_id() == old(self).next_id(),
            final(self).terminating() == old(self).terminating(),
            routed(
                old(self).windows_map(),
                final(self).windows_map(),
                xcb_window,
                WindowEvent::MouseEvent(mouse_event_of(kind, state, x, y, root_x, root_y)),
                r,
            ),
    {
        let mouse_event = MouseEvent {
            kind,
            x: x as isize,
            y: y as isize,
            screen_x: root_x as isize,
            screen_y: root_y as isize,
            mouse_buttons: self.mouse_buttons_from_state(state),
            modifiers: self.modifiers_from_state(state),
        };
        self.dispatch_event_to_window(xcb_window, WindowEvent::MouseEvent(mouse_event))
    }

    /// Translates a keysym, and the character the keyboard state produced for
    /// it, into a key code.
    pub fn key_code_from_keysym(&self, keysym: u32, utf32: u32) -> (k: KeyCode)
        ensures
            k == keysym_key_code(keysym, utf32),
    {
        key_code_from_keysym(keysym, utf32)
    }

    /// The key code from the server's keyboard mapping for a key: `keysyms` is
    /// the mapping reply's keysym list for the key, `None` where the request
    /// failed (the key is then reported by its raw code).
    pub fn key_code_from_keyboard_mapping(&self, detail: u8, state: KeyButMask, keysyms: Option<Vec<u32>>) -> (k: KeyCode)
        ensures
            k == match keysyms {
                Some(v) => keysym_key_code(mapped_keysym(v@, state), 0),
                None => KeyCode::RawCode(detail as u32),
            },
    {
        match keysyms {
            None => KeyCode::RawCode(detail as u32),
            Some(keysyms) => {
                let shift_index: usize = if state.contains(KEY_BUT_SHIFT) { 1 } else { 0 };
                let group_index: usize = if state.contains(KEY_BUT_MOD5) { 1 } else { 0 };
                let index = group_index * 2 + shift_index;
                let keysym: u32 = if index < keysyms.len() {
                    keysyms[index]
                } else if shift_index < keysyms.len() {
                    keysyms[shift_index]
                } else if keysyms.len() > 0 {
                    keysyms[0]
                } else {
                    0
                };
                key_code_from_keysym(keysym, 0)
            },
        }
    }

    /// The key the keyboard state gives for a key: `lookup` is the keysym and
    /// produced character that the XKB state reports, `None` where that state
    /// could not be set up (the key is then reported by its raw code, and the
    /// setup is tried again with the next key).
    pub fn key_code_from_xkb_state(&self, detail: u8, lookup: Option<(u32, u32)>) -> (k: KeyCode)
        ensures
            k == match lookup {
                Some((keysym, utf32)) => keysym_key_code(keysym, utf32),
                None => KeyCode::RawCode(detail as u32),
            },
    {
        match lookup {
            Some((keysym, utf32)) => key_code_from_keysym(keysym, utf32),
            None => KeyCode::RawCode(detail as u32),
        }
    }

    /// Whether a key from the keyboard state is to be looked up in the
    /// server's keyboard mapping instead: when the state left it untranslated.
    pub fn needs_keyboard_mapping(&self, xkb_key: KeyCode) -> (r: bool)
        ensures
            r == (xkb_key is RawCode),
    {
        xkb_key.is_raw_code()
    }

    /// The raw key of a key event: the keyboard state's key, unless the state
    /// left it untranslated, then the key from the server's keyboard mapping.
    pub fn select_raw_key(&self, xkb_key: KeyCode, mapping_key: KeyCode) -> (k: KeyCode)
        ensures
            k == (if xkb_key is RawCode { mapping_key } else { xkb_key }),
    {
        match xkb_key {
            KeyCode::RawCode(_) => mapping_key,
            key => key,
        }
    }

    /// The raw key event for a key transition, bound for the window backed by
    /// `xcb_window`; `raw_key` is the key as the keyboard state (or, failing
    /// that, the keyboard mapping) translated it.
    pub fn dispatch_key_event(&self, xcb_window: u32, detail: u8, state: KeyButMask, key_is_down: bool, raw_key: KeyCode) -> (r: Option<KeyDelivery>)
        requires
            self.wf(),
        ensures
            r is None <==> forall|id: usize| !backs(self.windows_map(), id, xcb_window),
            r matches Some(d) ==> {
                &&& backs(self.windows_map(), d.window_id, xcb_window)
                &&& d.event == RawKeyEvent {
                    key: raw_key,
                    modifiers: state_modifiers(state),
                    raw_code: detail as u32,
                    repeat_count: 1,
                    key_is_down,
                }
            },
    {
        match self.window_id_by_xcb_window(xcb_window) {
            None => None,
            Some(window_id) => {
                let modifiers = self.modifiers_from_state(state);
                Some(KeyDelivery {
                    window_id,
                    event: RawKeyEvent { key: raw_key, modifiers, raw_code: detail as u32, repeat_count: 1, key_is_down },
                })
            },
        }
    }

    /// What a window receives after a raw key event, once its handler has
    /// run: nothing where the handler marked the raw event handled, else the
    /// key event with the raw event's key and modifiers shift-normalised.
    pub fn key_event_after_raw(&self, raw: RawKeyEvent, raw_handled: bool) -> (r: Option<KeyEvent>)
        ensures
            r == (if raw_handled {
                None::<KeyEvent>
            } else {
                Some(KeyEvent {
                    key: shift_normalized(raw.key, raw.modifiers).0,
                    modifiers: shift_normalized(raw.key, raw.modifiers).1,
                    repeat_count: 1,
                    key_is_down: raw.key_is_down,
                    raw: Some(raw),
                })
            }),
    {
        if raw_handled {
            None
        } else {
            let (key, modifiers) = raw.key.normalize_shift(raw.modifiers);
            Some(KeyEvent { key, modifiers, repeat_count: 1, key_is_down: raw.key_is_down, raw: Some(raw) })
        }
    }

    /// Decides what the event pump does with one X11 event: key events go to
    /// the keyboard state first; the others become window events handed to the
    /// window backed by the event's window; the rest are ignored. `dpi` is the
    /// resolution reported with a resize.
    pub fn pump_x11_event(&mut self, event: X11Event, dpi: usize) -> (r: PumpAction)
        requires
            old(self).wf(),
        ensures
            final(self).wf(),
            final(self).next_id() == old(self).next_id(),
            final(self).terminating() == old(self).terminating(),
            match event {
                X11Event::KeyPress { window, detail, state } =>
                    r == PumpAction::TranslateKey { window, detail, state, key_is_down: true }
                    && final(self).windows_map() == old(self).windows_map(),
                X11Event::KeyRelease { window, detail, state } =>
                    r == PumpAction::TranslateKey { window, detail, state, key_is_down: false }
                    && final(self).windows_map() == old(self).windows_map(),
                _ => match window_event_of(event, dpi) {
                    None => r == PumpAction::Ignore && final(self).windows_map() == old(self).windows_map(),
                    Some((xwin, ev)) => !(r is TranslateKey)
                        && routed(old(self).windows_map(), final(self).windows_map(), xwin, ev, delivery_of(r)),
                },
            },
    {
        let delivered = match event {
            X11Event::KeyPress { window, detail, state } => {
                return PumpAction::TranslateKey { window, detail, state, key_is_down: true };
            },
            X11Event::KeyRelease { window, detail, state } => {
                return PumpAction::TranslateKey { window, detail, state, key_is_down: false };
            },
            X11Event::Expose { window, .. } => self.dispatch_event_to_window(window, WindowEvent::NeedRepaint),
            X11Event::ConfigureNotify { window, width, height, .. } => self.dispatch_event_to_window(
                window,
                WindowEvent::Resized { pixel_width: width as usize, pixel_height: height as usize, dpi },
            ),
            X11Event::FocusIn { window } => self.dispatch_event_to_window(window, WindowEvent::FocusChanged(true)),
            X11Event::FocusOut { window } => self.dispatch_event_to_window(window, WindowEvent::FocusChanged(false)),
            X11Event::Destroy { window } => self.dispatch_event_to_window(window, WindowEvent::Destroyed),
            X11Event::ButtonPress { window, detail, state, x, y, root_x, root_y } => {
                match self.wheel_kind_from_detail(detail) {
                    Some(kind) => self.dispatch_mouse_event(window, kind, state, x, y, root_x, root_y),
                    None => match self.mouse_press_from_detail(detail) {
                        Some(press) => {
                            let state = match press {
                                MousePress::Left => state.with(KEY_BUT_BUTTON1),
                                MousePress::Middle => state.with(KEY_BUT_BUTTON2),
                                MousePress::Right => state.with(KEY_BUT_BUTTON3),
                            };
                            self.dispatch_mouse_event(window, MouseEventKind::Press(press), state, x, y, root_x, root_y)
                        },
                        None => return PumpAction::Ignore,
                    },
                }
            },
            X11Event::ButtonRelease { window, detail, state, x, y, root_x, root_y } => {
                match self.mouse_press_from_detail(detail) {
                    Some(press) => {
                        let state = match press {
                            MousePress::Left => state.without(KEY_BUT_BUTTON1),
                            MousePress::Middle => state.without(KEY_BUT_BUTTON2),
                            MousePress::Right => state.without(KEY_BUT_BUTTON3),
                        };
                        self.dispatch_mouse_event(window, MouseEventKind::Release(press), state, x, y, root_x, root_y)
                    },
                    None => return PumpAction::Ignore,
                }
            },
            X11Event::MotionNotify { window, state, x, y, root_x, root_y } =>
                self.dispatch_mouse_event(window, MouseEventKind::Move, state, x, y, root_x, root_y),
            X11Event::EnterNotify { window, x, y, root_x, root_y } =>
                self.dispatch_mouse_event(window, MouseEventKind::Move, KeyButMask::empty(), x, y, root_x, root_y),
            X11Event::LeaveNotify { window, .. } => self.dispatch_event_to_window(window, WindowEvent::MouseLeave),
            X11Event::CloseRequested { window } => self.dispatch_event_to_window(window, WindowEvent::CloseRequested),
            X11Event::Unknown => return PumpAction::Ignore,
        };
        match delivered {
            Some(d) => PumpAction::Deliver(d),
            None => PumpAction::Ignore,
        }
    }

    /// The connection's name.
    pub fn name(&self) -> (s: String)
        ensures
            s@ == "linux"@,
    {
        String::from_str("linux")
    }

    /// Asks the message loop to stop.
    pub fn terminate_message_loop(&mut self)
        ensures
            final(self).terminating(),
            final(self).windows_map() == old(self).windows_map(),
            final(self).wf() == old(self).wf(),
            final(self).next_id() == old(self).next_id(),
    {
        self.terminate_requested = true;
    }

    /// Whether the message loop was asked to stop.
    pub fn is_terminate_requested(&self) -> (r: bool)
        ensures
            r == self.terminating(),
    {
        self.terminate_requested
    }

    /// The desktop appearance; this backend always reports dark.
    pub fn get_appearance(&self) -> (a: Appearance)
        ensures
            a == Appearance::Dark,
    {
        Appearance::Dark
    }
}

} // verus!

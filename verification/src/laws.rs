//! Properties of the backend that span its functions.

use vstd::prelude::*;
use crate::geometry::{ScreenRect, bounded, is_empty_rect, rect_union, rect_contains, lemma_union_bounded};
use crate::input::{KeyButMask, KeyCode, MouseButtons, MouseEventKind, MousePress};
use crate::os::linux::connection::{
    WindowEvent, WindowRecord, after_delivery, backs, button_bit, press_of_detail, state_buttons, state_modifiers,
    window_event_of,
};
use crate::os::linux::keysyms::{keysym_key_code, named_keysym, is_printable_latin1_keysym};
use crate::os::x11::connection::{MonitorInfo, XConnection, XRequest, monitor_name, monitor_rect, monitors_virtual_rect};
use crate::os::x11::events::{ClientMessageData, X11Event, XcbEvent, decoded};
use crate::text::{decimal, digit_char};
use crate::os::x11::window::{NET_WM_STATE_ADD, NET_WM_STATE_REMOVE, clamp_i16, cap_u16, net_wm_state_request};

verus! {

/// Whether a button set reports the button of `press` held.
pub open spec fn button_held(b: MouseButtons, press: MousePress) -> bool {
    match press {
        MousePress::Left => b.left,
        MousePress::Middle => b.middle,
        MousePress::Right => b.right,
    }
}

proof fn lemma_button_bits(bits: u32, press: MousePress)
    ensures
        button_held(state_buttons(KeyButMask { bits: bits | button_bit(press) }), press),
        !button_held(state_buttons(KeyButMask { bits: bits & !button_bit(press) }), press),
        state_modifiers(KeyButMask { bits: bits | button_bit(press) }) == state_modifiers(KeyButMask { bits }),
        state_modifiers(KeyButMask { bits: bits & !button_bit(press) }) == state_modifiers(KeyButMask { bits }),
{
    assert((bits | 0x100u32) & 0x100u32 == 0x100u32) by (bit_vector);
    assert((bits | 0x200u32) & 0x200u32 == 0x200u32) by (bit_vector);
    assert((bits | 0x400u32) & 0x400u32 == 0x400u32) by (bit_vector);
    assert((bits & !0x100u32) & 0x100u32 != 0x100u32) by (bit_vector);
    assert((bits & !0x200u32) & 0x200u32 != 0x200u32) by (bit_vector);
    assert((bits & !0x400u32) & 0x400u32 != 0x400u32) by (bit_vector);
    assert(forall|m: u32| #![auto] (m == 1u32 || m == 4u32 || m == 8u32 || m == 0x40u32) ==> (
        ((bits | 0x100u32) & m == m) == (bits & m == m)
        && ((bits | 0x200u32) & m == m) == (bits & m == m)
        && ((bits | 0x400u32) & m == m) == (bits & m == m)
        && ((bits & !0x100u32) & m == m) == (bits & m == m)
        && ((bits & !0x200u32) & m == m) == (bits & m == m)
        && ((bits & !0x400u32) & m == m) == (bits & m == m))) by (bit_vector);
}

/// A press of one of the three pointer buttons reaches its window as a mouse
/// event that reports that button held, with the modifiers of the event's
/// state.
pub proof fn law_press_reports_button_held(
    window: u32,
    detail: u8,
    state: KeyButMask,
    x: i16,
    y: i16,
    root_x: i16,
    root_y: i16,
    dpi: usize,
)
    requires
        press_of_detail(detail) is Some,
    ensures
        window_event_of(X11Event::ButtonPress { window, detail, state, x, y, root_x, root_y }, dpi) matches
            Some((w, WindowEvent::MouseEvent(e)))
            && w == window
            && e.kind == MouseEventKind::Press(press_of_detail(detail)->0)
            && button_held(e.mouse_buttons, press_of_detail(detail)->0)
            && e.modifiers == state_modifiers(state),
{
    lemma_button_bits(state.bits, press_of_detail(detail)->0);
}

/// A release of one of the three pointer buttons reaches its window as a
/// mouse event that reports that button no longer held, with the modifiers of
/// the event's state.
pub proof fn law_release_reports_button_free(
    window: u32,
    detail: u8,
    state: KeyButMask,
    x: i16,
    y: i16,
    root_x: i16,
    root_y: i16,
    dpi: usize,
)
    requires
        press_of_detail(detail) is Some,
    ensures
        window_event_of(X11Event::ButtonRelease { window, detail, state, x, y, root_x, root_y }, dpi) matches
            Some((w, WindowEvent::MouseEvent(e)))
            && w == window
            && e.kind == MouseEventKind::Release(press_of_detail(detail)->0)
            && !button_held(e.mouse_buttons, press_of_detail(detail)->0)
            && e.modifiers == state_modifiers(state),
{
    lemma_button_bits(state.bits, press_of_detail(detail)->0);
}

/// A window registered under an id is found by that id, with its X window and
/// not asked to close, and its X window is backed by a registered window.
pub proof fn law_registered_window_is_found(m: Map<usize, WindowRecord>, id: usize, xcb_window: u32)
    ensures
        m.insert(id, WindowRecord { id, xcb_window, should_close: false }).contains_key(id),
        m.insert(id, WindowRecord { id, xcb_window, should_close: false })[id].xcb_window == xcb_window,
        !m.insert(id, WindowRecord { id, xcb_window, should_close: false })[id].should_close,
        backs(m.insert(id, WindowRecord { id, xcb_window, should_close: false }), id, xcb_window),
{
}

/// A window asked to close leaves the registry with the next event delivered
/// to it; any other window stays, and other windows are untouched.
pub proof fn law_closing_window_leaves_on_delivery(m: Map<usize, WindowRecord>, id: usize, other: usize)
    requires
        m.contains_key(id),
    ensures
        m[id].should_close ==> !after_delivery(m, id).contains_key(id),
        !m[id].should_close ==> after_delivery(m, id) == m,
        other != id ==> (after_delivery(m, id).contains_key(other) == m.contains_key(other)),
        other != id && m.contains_key(other) ==> after_delivery(m, id)[other] == m[other],
{
}

/// A name's cached atom is the one last recorded for it; recording leaves
/// other names' atoms as they were.
pub proof fn law_atom_cache_returns_recorded(c0: XConnection, c1: XConnection, name: Seq<char>, atom: u32, other: Seq<char>)
    requires
        c1.atoms() == c0.atoms().insert(name, atom),
    ensures
        c1.atoms().contains_key(name),
        c1.atoms()[name] == atom,
        other != name ==> c1.atoms().contains_key(other) == c0.atoms().contains_key(other),
        other != name && c0.atoms().contains_key(other) ==> c1.atoms()[other] == c0.atoms()[other],
{
}

/// A ClientMessage is a close request only when both WM_PROTOCOLS and
/// WM_DELETE_WINDOW are known, its type is WM_PROTOCOLS and its first 32-bit
/// datum is WM_DELETE_WINDOW.
pub proof fn law_close_request_needs_both_atoms(
    window: u32,
    message_type: u32,
    data: ClientMessageData,
    wm_protocols: Option<u32>,
    wm_delete_window: Option<u32>,
)
    ensures
        (decoded(XcbEvent::ClientMessage { window, message_type, data }, wm_protocols, wm_delete_window)
            == X11Event::CloseRequested { window }) <==> (
            wm_protocols == Some(message_type)
            && wm_delete_window is Some
            && (data matches ClientMessageData::Data32(words) && words[0] == wm_delete_window->0)),
        !(decoded(XcbEvent::ClientMessage { window, message_type, data }, wm_protocols, wm_delete_window)
            == X11Event::CloseRequested { window }) ==>
            decoded(XcbEvent::ClientMessage { window, message_type, data }, wm_protocols, wm_delete_window)
                == X11Event::Unknown,
{
}

/// The function keys F1 to F12 translate to function keys 1 to 12, whatever
/// character the keyboard state produced.
pub proof fn law_function_keys(keysym: u32, utf32: u32)
    requires
        0xFFBE <= keysym <= 0xFFC9,
    ensures
        keysym_key_code(keysym, utf32) == KeyCode::Function((keysym - 0xFFBE + 1) as u8),
{
}

/// A key that the table does not name translates to the character the
/// keyboard state produced, when that is a non-control character.
pub proof fn law_produced_text_wins(keysym: u32, utf32: u32)
    requires
        named_keysym(keysym) is None,
        utf32 <= 0x10FFFF,
        !(0xD800 <= utf32 <= 0xDFFF),
        !(utf32 <= 0x1F || (0x7F <= utf32 && utf32 <= 0x9F)),
    ensures
        keysym_key_code(keysym, utf32) == KeyCode::Char(utf32 as char),
{
}

/// Without produced text, a printable Latin-1 keysym translates to its own
/// character, and any other unnamed keysym to its raw code.
pub proof fn law_keysym_fallback(keysym: u32)
    requires
        named_keysym(keysym) is None,
    ensures
        is_printable_latin1_keysym(keysym) ==> keysym_key_code(keysym, 0) == KeyCode::Char(keysym as char),
        !is_printable_latin1_keysym(keysym) ==> keysym_key_code(keysym, 0) == KeyCode::RawCode(keysym),
{
}

/// Restoring asks the window manager to remove exactly the two states that
/// maximizing asks it to add, for the same window.
pub proof fn law_restore_mirrors_maximize(root: u32, window: u32, net_wm_state: u32, horz: u32, vert: u32)
    ensures
        net_wm_state_request(root, window, net_wm_state, NET_WM_STATE_ADD, horz, vert) matches
            XRequest::SendEvent { destination: d1, event: e1 }
        && net_wm_state_request(root, window, net_wm_state, NET_WM_STATE_REMOVE, horz, vert) matches
            XRequest::SendEvent { destination: d2, event: e2 }
        && d1 == d2 && e1.window == e2.window && e1.message_type == e2.message_type
        && e1.data[0] == 1 && e2.data[0] == 0
        && e1.data[1] == e2.data[1] && e1.data[2] == e2.data[2]
        && e1.data[3] == e2.data[3] && e1.data[4] == e2.data[4],
{
}

/// Moving a window keeps coordinates within the 16-bit range as they are and
/// brings any other to the nearest end of the range; resizing keeps sizes up
/// to the largest 16-bit value as they are and caps larger ones.
pub proof fn law_geometry_clamping(v: i32, s: u32)
    ensures
        -32768 <= v <= 32767 ==> clamp_i16(v) as i32 == v,
        v < -32768 ==> clamp_i16(v) == -32768,
        v > 32767 ==> clamp_i16(v) == 32767,
        s <= 65535 ==> cap_u16(s) as u32 == s,
        s > 65535 ==> cap_u16(s) == 65535,
{
}

/// The virtual screen rectangle holds every monitor that covers any area.
pub proof fn law_virtual_rect_covers_monitors(ms: Seq<MonitorInfo>, i: int)
    requires
        0 <= i < ms.len(),
        !is_empty_rect(monitor_rect(ms[i])),
    ensures
        rect_contains(monitors_virtual_rect(ms), monitor_rect(ms[i])),
        bounded(monitors_virtual_rect(ms)),
    decreases ms.len(),
{
    lemma_virtual_rect_bounded(ms);
    if ms.len() > 1 {
        let p = ms.drop_last();
        lemma_virtual_rect_bounded(p);
        lemma_union_bounded(monitors_virtual_rect(p), monitor_rect(ms.last()));
        if i < ms.len() - 1 {
            assert(p[i] == ms[i]);
            law_virtual_rect_covers_monitors(p, i);
            lemma_virtual_rect_grows(monitors_virtual_rect(p), monitor_rect(ms.last()), monitor_rect(ms[i]));
        }
    }
}

proof fn lemma_virtual_rect_bounded(ms: Seq<MonitorInfo>)
    requires
        ms.len() > 0,
    ensures
        bounded(monitors_virtual_rect(ms)),
    decreases ms.len(),
{
    if ms.len() > 1 {
        lemma_virtual_rect_bounded(ms.drop_last());
        lemma_union_bounded(monitors_virtual_rect(ms.drop_last()), monitor_rect(ms.last()));
    }
}

proof fn lemma_virtual_rect_grows(a: ScreenRect, b: ScreenRect, inner: ScreenRect)
    requires
        bounded(a),
        bounded(b),
        !is_empty_rect(inner),
        rect_contains(a, inner),
    ensures
        rect_contains(rect_union(a, b), inner),
{
}


proof fn lemma_decimal_len(n: nat)
    ensures
        decimal(n).len() >= 1,
        n >= 10 ==> decimal(n).len() >= 2,
    decreases n,
{
    if n >= 10 {
        lemma_decimal_len(n / 10);
    }
}

/// Distinct numbers render to distinct decimal digit strings, so monitors
/// without a name get distinct names.
pub proof fn law_decimal_injective(a: nat, b: nat)
    requires
        a != b,
    ensures
        decimal(a) != decimal(b),
    decreases a + b,
{
    lemma_decimal_len(a);
    lemma_decimal_len(b);
    if a % 10 != b % 10 {
        let da = decimal(a);
        let db = decimal(b);
        if da == db {
            assert(da.last() == digit_char((a % 10) as int));
            assert(db.last() == digit_char((b % 10) as int));
        }
    } else if a >= 10 && b >= 10 {
        law_decimal_injective(a / 10, b / 10);
        if decimal(a) == decimal(b) {
            assert(decimal(a).drop_last() == decimal(a / 10));
            assert(decimal(b).drop_last() == decimal(b / 10));
        }
    } else {
        assert(a < 10 || b < 10);
        if a < 10 && b < 10 {
            assert(a == b);
        }
    }
}

/// Monitors without a name are listed under distinct names.
pub proof fn law_unnamed_monitor_names_distinct(m1: MonitorInfo, i: nat, m2: MonitorInfo, j: nat)
    requires
        m1.name is None,
        m2.name is None,
        i != j,
    ensures
        monitor_name(m1, i as int) != monitor_name(m2, j as int),
{
    law_decimal_injective(i, j);
    let p = "monitor-"@;
    if monitor_name(m1, i as int) == monitor_name(m2, j as int) {
        assert((p + decimal(i)).subrange(p.len() as int, (p + decimal(i)).len() as int) =~= decimal(i));
        assert((p + decimal(j)).subrange(p.len() as int, (p + decimal(j)).len() as int) =~= decimal(j));
    }
}
} // verus!

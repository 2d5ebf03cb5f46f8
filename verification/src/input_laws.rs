//! Properties of input handling, stated over the bits of the X11 key/button
//! state and the fields of the events themselves.

use vstd::prelude::*;
use crate::input::{KeyButMask, KeyCode, Modifiers, MouseButtons, MouseEvent, MouseEventKind, MousePress, shift_normalized};
use crate::os::linux::connection::{WindowEvent, mapped_keysym, window_event_of};
use crate::os::x11::events::{X11Event, XcbEvent, decoded};
use crate::os::linux::keysyms::keysym_key_code;

verus! {

/// The modifiers that a state's bits report: Shift (bit 0), Control (bit 2),
/// Mod1 as Alt (bit 3) and Mod4 as Super (bit 6); Lock and the other bits
/// report nothing.
pub open spec fn modifiers_of_bits(m: Modifiers, bits: u32) -> bool {
    &&& m.shift == (bits & 0x1u32 != 0)
    &&& m.ctrl == (bits & 0x4u32 != 0)
    &&& m.alt == (bits & 0x8u32 != 0)
    &&& m.super_key == (bits & 0x40u32 != 0)
}

/// The buttons that a state's bits report held: Button1 (bit 8) left,
/// Button2 (bit 9) middle, Button3 (bit 10) right.
pub open spec fn buttons_of_bits(b: MouseButtons, bits: u32) -> bool {
    &&& b.left == (bits & 0x100u32 != 0)
    &&& b.middle == (bits & 0x200u32 != 0)
    &&& b.right == (bits & 0x400u32 != 0)
}

/// A mouse event placed where the X11 event put the pointer: in the window and
/// on the root window.
pub open spec fn at_position(e: MouseEvent, x: i16, y: i16, root_x: i16, root_y: i16) -> bool {
    &&& e.x == x as isize
    &&& e.y == y as isize
    &&& e.screen_x == root_x as isize
    &&& e.screen_y == root_y as isize
}

proof fn lemma_state_bit(bits: u32, m: u32)
    by (bit_vector)
    requires
        m == 1u32 || m == 4u32 || m == 8u32 || m == 0x40u32 || m == 0x80u32
            || m == 0x100u32 || m == 0x200u32 || m == 0x400u32,
    ensures
        (bits & m == m) == (bits & m != 0u32),
        ((bits | 0x100u32) & m == m) == (m == 0x100u32 || bits & m != 0u32),
        ((bits | 0x200u32) & m == m) == (m == 0x200u32 || bits & m != 0u32),
        ((bits | 0x400u32) & m == m) == (m == 0x400u32 || bits & m != 0u32),
        ((bits & !0x100u32) & m == m) == (m != 0x100u32 && bits & m != 0u32),
        ((bits & !0x200u32) & m == m) == (m != 0x200u32 && bits & m != 0u32),
        ((bits & !0x400u32) & m == m) == (m != 0x400u32 && bits & m != 0u32),
        ((bits & 0x81u32) & m == m) == ((m == 1u32 || m == 0x80u32) && bits & m != 0u32),
        (0u32 & m) == 0u32,
{
}

/// A wheel button press (buttons 4 to 7) reaches its window as a wheel event
/// (4 and 5 turn the vertical wheel up and down, 6 and 7 the horizontal
/// one) at the event's position, reporting the modifiers and held buttons of
/// the event's own state.
pub proof fn law_wheel_event(window: u32, detail: u8, state: KeyButMask, x: i16, y: i16, root_x: i16, root_y: i16, dpi: usize)
    requires
        4 <= detail <= 7,
    ensures
        window_event_of(X11Event::ButtonPress { window, detail, state, x, y, root_x, root_y }, dpi) matches
            Some((w, WindowEvent::MouseEvent(e)))
            && w == window
            && e.kind == (if detail == 4 {
                MouseEventKind::VertWheel(1i16)
            } else if detail == 5 {
                MouseEventKind::VertWheel(-1i16)
            } else if detail == 6 {
                MouseEventKind::HorzWheel(1i16)
            } else {
                MouseEventKind::HorzWheel(-1i16)
            })
            && at_position(e, x, y, root_x, root_y)
            && modifiers_of_bits(e.modifiers, state.bits)
            && buttons_of_bits(e.mouse_buttons, state.bits),
{
    lemma_state_bit(state.bits, 1u32);
    lemma_state_bit(state.bits, 4u32);
    lemma_state_bit(state.bits, 8u32);
    lemma_state_bit(state.bits, 0x40u32);
    lemma_state_bit(state.bits, 0x80u32);
    lemma_state_bit(state.bits, 0x100u32);
    lemma_state_bit(state.bits, 0x200u32);
    lemma_state_bit(state.bits, 0x400u32);
}

/// A press of button 1, 2 or 3 reaches its window as a press of the left,
/// middle or right button at the event's position, with the modifiers of the
/// event's state, reporting the pressed button held and the other buttons as
/// the state has them.
pub proof fn law_button_press_event(window: u32, detail: u8, state: KeyButMask, x: i16, y: i16, root_x: i16, root_y: i16, dpi: usize)
    requires
        1 <= detail <= 3,
    ensures
        window_event_of(X11Event::ButtonPress { window, detail, state, x, y, root_x, root_y }, dpi) matches
            Some((w, WindowEvent::MouseEvent(e)))
            && w == window
            && e.kind == MouseEventKind::Press(
                if detail == 1 { MousePress::Left } else if detail == 2 { MousePress::Middle } else { MousePress::Right })
            && at_position(e, x, y, root_x, root_y)
            && modifiers_of_bits(e.modifiers, state.bits)
            && e.mouse_buttons.left == (detail == 1 || state.bits & 0x100u32 != 0)
            && e.mouse_buttons.middle == (detail == 2 || state.bits & 0x200u32 != 0)
            && e.mouse_buttons.right == (detail == 3 || state.bits & 0x400u32 != 0),
{
    lemma_state_bit(state.bits, 1u32);
    lemma_state_bit(state.bits, 4u32);
    lemma_state_bit(state.bits, 8u32);
    lemma_state_bit(state.bits, 0x40u32);
    lemma_state_bit(state.bits, 0x80u32);
    lemma_state_bit(state.bits, 0x100u32);
    lemma_state_bit(state.bits, 0x200u32);
    lemma_state_bit(state.bits, 0x400u32);
}

/// A release of button 1, 2 or 3 reaches its window as a release of that
/// button at the event's position, with the modifiers of the event's state,
/// reporting the released button free and the other buttons as the state has
/// them.
pub proof fn law_button_release_event(window: u32, detail: u8, state: KeyButMask, x: i16, y: i16, root_x: i16, root_y: i16, dpi: usize)
    requires
        1 <= detail <= 3,
    ensures
        window_event_of(X11Event::ButtonRelease { window, detail, state, x, y, root_x, root_y }, dpi) matches
            Some((w, WindowEvent::MouseEvent(e)))
            && w == window
            && e.kind == MouseEventKind::Release(
                if detail == 1 { MousePress::Left } else if detail == 2 { MousePress::Middle } else { MousePress::Right })
            && at_position(e, x, y, root_x, root_y)
            && modifiers_of_bits(e.modifiers, state.bits)
            && e.mouse_buttons.left == (detail != 1 && state.bits & 0x100u32 != 0)
            && e.mouse_buttons.middle == (detail != 2 && state.bits & 0x200u32 != 0)
            && e.mouse_buttons.right == (detail != 3 && state.bits & 0x400u32 != 0),
{
    lemma_state_bit(state.bits, 1u32);
    lemma_state_bit(state.bits, 4u32);
    lemma_state_bit(state.bits, 8u32);
    lemma_state_bit(state.bits, 0x40u32);
    lemma_state_bit(state.bits, 0x80u32);
    lemma_state_bit(state.bits, 0x100u32);
    lemma_state_bit(state.bits, 0x200u32);
    lemma_state_bit(state.bits, 0x400u32);
}

/// Button events for any other button reach no window: a press of a button
/// beyond 7 (or 0), a release of any button but 1 to 3.
pub proof fn law_other_buttons_ignored(window: u32, detail: u8, state: KeyButMask, x: i16, y: i16, root_x: i16, root_y: i16, dpi: usize)
    ensures
        (detail == 0 || detail > 7) ==> window_event_of(
            X11Event::ButtonPress { window, detail, state, x, y, root_x, root_y }, dpi) is None,
        (detail == 0 || detail > 3) ==> window_event_of(
            X11Event::ButtonRelease { window, detail, state, x, y, root_x, root_y }, dpi) is None,
{
}

/// Pointer motion reaches its window as a move at the event's position,
/// reporting the modifiers and held buttons of the event's state; entering a
/// window is a move there with no modifiers and no buttons.
pub proof fn law_motion_and_enter_events(window: u32, state: KeyButMask, x: i16, y: i16, root_x: i16, root_y: i16, dpi: usize)
    ensures
        window_event_of(X11Event::MotionNotify { window, state, x, y, root_x, root_y }, dpi) matches
            Some((w, WindowEvent::MouseEvent(e)))
            && w == window
            && e.kind == MouseEventKind::Move
            && at_position(e, x, y, root_x, root_y)
            && modifiers_of_bits(e.modifiers, state.bits)
            && buttons_of_bits(e.mouse_buttons, state.bits),
        window_event_of(X11Event::EnterNotify { window, x, y, root_x, root_y }, dpi) matches
            Some((w, WindowEvent::MouseEvent(e)))
            && w == window
            && e.kind == MouseEventKind::Move
            && at_position(e, x, y, root_x, root_y)
            && !e.modifiers.shift && !e.modifiers.ctrl && !e.modifiers.alt && !e.modifiers.super_key
            && !e.mouse_buttons.left && !e.mouse_buttons.middle && !e.mouse_buttons.right,
{
    lemma_state_bit(state.bits, 1u32);
    lemma_state_bit(state.bits, 4u32);
    lemma_state_bit(state.bits, 8u32);
    lemma_state_bit(state.bits, 0x40u32);
    lemma_state_bit(state.bits, 0x80u32);
    lemma_state_bit(state.bits, 0x100u32);
    lemma_state_bit(state.bits, 0x200u32);
    lemma_state_bit(state.bits, 0x400u32);
    lemma_state_bit(0u32, 1u32);
    lemma_state_bit(0u32, 4u32);
    lemma_state_bit(0u32, 8u32);
    lemma_state_bit(0u32, 0x40u32);
    lemma_state_bit(0u32, 0x80u32);
    lemma_state_bit(0u32, 0x100u32);
    lemma_state_bit(0u32, 0x200u32);
    lemma_state_bit(0u32, 0x400u32);
}

/// The window events that carry no pointer: exposure asks the window to
/// repaint, a configure notification reports the new pixel size at the given
/// resolution, focus changes report gaining and losing focus, leaving reports
/// the pointer gone, and close requests and destruction are passed on, each
/// to the event's own window. Key events and unknown events reach no window
/// this way.
pub proof fn law_window_events(window: u32, a: u32, b: u32, px: i32, py: i32, p: i16, q: i16, dpi: usize, e: X11Event)
    ensures
        window_event_of(X11Event::Expose { window, width: a, height: b }, dpi) == Some((window, WindowEvent::NeedRepaint)),
        window_event_of(X11Event::ConfigureNotify { window, x: px, y: py, width: a, height: b }, dpi)
            == Some((window, WindowEvent::Resized { pixel_width: a as usize, pixel_height: b as usize, dpi })),
        window_event_of(X11Event::FocusIn { window }, dpi) == Some((window, WindowEvent::FocusChanged(true))),
        window_event_of(X11Event::FocusOut { window }, dpi) == Some((window, WindowEvent::FocusChanged(false))),
        window_event_of(X11Event::LeaveNotify { window, x: p, y: q, root_x: q, root_y: p }, dpi)
            == Some((window, WindowEvent::MouseLeave)),
        window_event_of(X11Event::CloseRequested { window }, dpi) == Some((window, WindowEvent::CloseRequested)),
        window_event_of(X11Event::Destroy { window }, dpi) == Some((window, WindowEvent::Destroyed)),
        (e is KeyPress || e is KeyRelease || e is Unknown) ==> window_event_of(e, dpi) is None,
{
}

/// Named keys translate by their keysym alone, whatever character the
/// keyboard state produced: Return, Tab, Escape, BackSpace and Delete to their
/// control characters; the cursor, paging and Insert keys to those keys; the
/// shift, control, alt (and meta), and super keys to the left or right
/// modifier key.
pub proof fn law_named_keys(utf32: u32)
    ensures
        keysym_key_code(0xFF0Du32, utf32) == KeyCode::Char('\r'),
        keysym_key_code(0xFF09u32, utf32) == KeyCode::Char('\t'),
        keysym_key_code(0xFF1Bu32, utf32) == KeyCode::Char('\u{1b}'),
        keysym_key_code(0xFF08u32, utf32) == KeyCode::Char('\u{8}'),
        keysym_key_code(0xFFFFu32, utf32) == KeyCode::Char('\u{7f}'),
        keysym_key_code(0xFF51u32, utf32) == KeyCode::LeftArrow,
        keysym_key_code(0xFF53u32, utf32) == KeyCode::RightArrow,
        keysym_key_code(0xFF52u32, utf32) == KeyCode::UpArrow,
        keysym_key_code(0xFF54u32, utf32) == KeyCode::DownArrow,
        keysym_key_code(0xFF50u32, utf32) == KeyCode::Home,
        keysym_key_code(0xFF57u32, utf32) == KeyCode::End,
        keysym_key_code(0xFF55u32, utf32) == KeyCode::PageUp,
        keysym_key_code(0xFF56u32, utf32) == KeyCode::PageDown,
        keysym_key_code(0xFF63u32, utf32) == KeyCode::Insert,
        keysym_key_code(0xFFE1u32, utf32) == KeyCode::LeftShift,
        keysym_key_code(0xFFE2u32, utf32) == KeyCode::RightShift,
        keysym_key_code(0xFFE3u32, utf32) == KeyCode::LeftControl,
        keysym_key_code(0xFFE4u32, utf32) == KeyCode::RightControl,
        keysym_key_code(0xFFE9u32, utf32) == KeyCode::LeftAlt,
        keysym_key_code(0xFFE7u32, utf32) == KeyCode::LeftAlt,
        keysym_key_code(0xFFEAu32, utf32) == KeyCode::RightAlt,
        keysym_key_code(0xFFE8u32, utf32) == KeyCode::RightAlt,
        keysym_key_code(0xFFEBu32, utf32) == KeyCode::LeftWindows,
        keysym_key_code(0xFFECu32, utf32) == KeyCode::RightWindows,
{
}

/// The keysym read from a keyboard-mapping reply depends on the state only
/// through Shift (bit 0), which picks the second level, and Mod5 (bit 7),
/// which picks the second group: the entry for group and level where the
/// reply has it, else the level's entry in the first group, else the first
/// entry, else 0. Lock, Control and every other bit change nothing.
pub proof fn law_mapping_keysym_reads_shift_and_mod5(keysyms: Seq<u32>, state: KeyButMask)
    ensures
        mapped_keysym(keysyms, state) == mapped_keysym(keysyms, KeyButMask { bits: state.bits & 0x81u32 }),
        keysyms.len() == 0 ==> mapped_keysym(keysyms, state) == 0,
        state.bits & 0x1u32 == 0 && state.bits & 0x80u32 == 0 && keysyms.len() > 0
            ==> mapped_keysym(keysyms, state) == keysyms[0],
        state.bits & 0x1u32 != 0 && state.bits & 0x80u32 == 0 && keysyms.len() > 1
            ==> mapped_keysym(keysyms, state) == keysyms[1],
        state.bits & 0x1u32 == 0 && state.bits & 0x80u32 != 0 && keysyms.len() > 2
            ==> mapped_keysym(keysyms, state) == keysyms[2],
        state.bits & 0x1u32 != 0 && state.bits & 0x80u32 != 0 && keysyms.len() > 3
            ==> mapped_keysym(keysyms, state) == keysyms[3],
        state.bits & 0x1u32 == 0 && state.bits & 0x80u32 != 0 && 0 < keysyms.len() <= 2
            ==> mapped_keysym(keysyms, state) == keysyms[0],
        state.bits & 0x1u32 != 0 && state.bits & 0x80u32 != 0 && 1 < keysyms.len() <= 3
            ==> mapped_keysym(keysyms, state) == keysyms[1],
        state.bits & 0x1u32 != 0 && keysyms.len() == 1 ==> mapped_keysym(keysyms, state) == keysyms[0],
{
    lemma_state_bit(state.bits, 1u32);
    lemma_state_bit(state.bits, 4u32);
    lemma_state_bit(state.bits, 8u32);
    lemma_state_bit(state.bits, 0x40u32);
    lemma_state_bit(state.bits, 0x80u32);
    lemma_state_bit(state.bits, 0x100u32);
    lemma_state_bit(state.bits, 0x200u32);
    lemma_state_bit(state.bits, 0x400u32);
}

/// Shift normalisation changes at most the shift flag: Control, Alt and
/// Super stay as given. Without shift nothing changes; with shift, a
/// lowercase ASCII letter becomes the letter 32 code points below it (its
/// uppercase form), and shift is dropped exactly for ASCII letters.
pub proof fn law_normalize_shift(key: KeyCode, m: Modifiers)
    ensures
        shift_normalized(key, m).1.ctrl == m.ctrl,
        shift_normalized(key, m).1.alt == m.alt,
        shift_normalized(key, m).1.super_key == m.super_key,
        !m.shift ==> shift_normalized(key, m) == (key, m),
        m.shift ==> (shift_normalized(key, m).1.shift <==> !(key matches KeyCode::Char(c)
            && ((0x41 <= c as u32 && c as u32 <= 0x5A) || (0x61 <= c as u32 && c as u32 <= 0x7A)))),
        m.shift && (key matches KeyCode::Char(c) && 0x61 <= c as u32 && c as u32 <= 0x7A) ==>
            (shift_normalized(key, m).0 matches KeyCode::Char(u) && key matches KeyCode::Char(c)
                && u as u32 + 32 == c as u32),
        !(key matches KeyCode::Char(c) && 0x61 <= c as u32 && c as u32 <= 0x7A) ==> shift_normalized(key, m).0 == key,
{
}

/// Decoding keeps each core event's kind and fields: a key press stays a key
/// press and a key release a key release, with the same window, detail and
/// state; button, motion, crossing, focus, exposure, configure and destroy
/// events keep their window and values. Only a ClientMessage depends on the
/// known atoms.
pub proof fn law_decoding_keeps_kind_and_fields(e: XcbEvent, wm_protocols: Option<u32>, wm_delete_window: Option<u32>)
    ensures
        (decoded(e, wm_protocols, wm_delete_window) is KeyPress) <==> (e is KeyPress),
        (decoded(e, wm_protocols, wm_delete_window) is KeyRelease) <==> (e is KeyRelease),
        (decoded(e, wm_protocols, wm_delete_window) is ButtonPress) <==> (e is ButtonPress),
        (decoded(e, wm_protocols, wm_delete_window) is ButtonRelease) <==> (e is ButtonRelease),
        (decoded(e, wm_protocols, wm_delete_window) is MotionNotify) <==> (e is MotionNotify),
        e matches XcbEvent::KeyPress { event, detail, state } ==> decoded(e, wm_protocols, wm_delete_window)
            == (X11Event::KeyPress { window: event, detail, state }),
        e matches XcbEvent::KeyRelease { event, detail, state } ==> decoded(e, wm_protocols, wm_delete_window)
            == (X11Event::KeyRelease { window: event, detail, state }),
        e matches XcbEvent::ButtonPress { event, detail, state, event_x, event_y, root_x, root_y } ==>
            decoded(e, wm_protocols, wm_delete_window)
            == (X11Event::ButtonPress { window: event, detail, state, x: event_x, y: event_y, root_x, root_y }),
        e matches XcbEvent::ButtonRelease { event, detail, state, event_x, event_y, root_x, root_y } ==>
            decoded(e, wm_protocols, wm_delete_window)
            == (X11Event::ButtonRelease { window: event, detail, state, x: event_x, y: event_y, root_x, root_y }),
        e matches XcbEvent::MotionNotify { event, state, event_x, event_y, root_x, root_y } ==>
            decoded(e, wm_protocols, wm_delete_window)
            == (X11Event::MotionNotify { window: event, state, x: event_x, y: event_y, root_x, root_y }),
        e matches XcbEvent::EnterNotify { event, event_x, event_y, root_x, root_y } ==>
            decoded(e, wm_protocols, wm_delete_window)
            == (X11Event::EnterNotify { window: event, x: event_x, y: event_y, root_x, root_y }),
        e matches XcbEvent::LeaveNotify { event, event_x, event_y, root_x, root_y } ==>
            decoded(e, wm_protocols, wm_delete_window)
            == (X11Event::LeaveNotify { window: event, x: event_x, y: event_y, root_x, root_y }),
        e matches XcbEvent::Expose { window, width, height } ==> decoded(e, wm_protocols, wm_delete_window)
            == (X11Event::Expose { window, width: width as u32, height: height as u32 }),
        e matches XcbEvent::FocusIn { event } ==> decoded(e, wm_protocols, wm_delete_window)
            == (X11Event::FocusIn { window: event }),
        e matches XcbEvent::FocusOut { event } ==> decoded(e, wm_protocols, wm_delete_window)
            == (X11Event::FocusOut { window: event }),
        e matches XcbEvent::ConfigureNotify { window, x, y, width, height } ==> decoded(e, wm_protocols, wm_delete_window)
            == (X11Event::ConfigureNotify { window, x: x as i32, y: y as i32, width: width as u32, height: height as u32 }),
        e matches XcbEvent::DestroyNotify { window } ==> decoded(e, wm_protocols, wm_delete_window)
            == (X11Event::Destroy { window }),
        !(e is ClientMessage) ==> decoded(e, wm_protocols, wm_delete_window) == decoded(e, None, None),
{
}

} // verus!

//! Input vocabulary shared by the backend: key codes, modifier sets, mouse
//! buttons and the X11 key/button state mask.

use vstd::prelude::*;
use crate::os::linux::keysyms::char_from_u32;

verus! {

/// A key as the window layer reports it.
#[derive(Debug, Clone, Copy, PartialEq, Eq, Hash, Structural)]
pub enum KeyCode {
    Char(char),
    LeftArrow,
    RightArrow,
    UpArrow,
    DownArrow,
    Home,
    End,
    PageUp,
    PageDown,
    Insert,
    Function(u8),
    LeftShift,
    RightShift,
    LeftControl,
    RightControl,
    LeftAlt,
    RightAlt,
    LeftWindows,
    RightWindows,
    RawCode(u32),
}

impl KeyCode {
    /// True for a key that could not be translated and is reported by its raw code.
    pub fn is_raw_code(&self) -> (r: bool)
        ensures
            r == (*self is RawCode),
    {
        match self {
            KeyCode::RawCode(_) => true,
            _ => false,
        }
    }

    /// The key and modifiers with shift folded into an ASCII letter: while
    /// shift is held, a lowercase letter becomes its uppercase form, an
    /// uppercase letter stays, and shift is dropped in both cases; any other
    /// key, or a key without shift, keeps the key and modifiers as they are.
    pub fn normalize_shift(&self, modifiers: Modifiers) -> (r: (KeyCode, Modifiers))
        ensures
            r == shift_normalized(*self, modifiers),
    {
        let without_shift = Modifiers {
            shift: false,
            ctrl: modifiers.ctrl,
            alt: modifiers.alt,
            super_key: modifiers.super_key,
        };
        match *self {
            KeyCode::Char(c) => {
                let v: u32 = c as u32;
                if modifiers.shift && 0x41 <= v && v <= 0x5A {
                    (*self, without_shift)
                } else if modifiers.shift && 0x61 <= v && v <= 0x7A {
                    match char_from_u32(v - 32) {
                        Some(upper) => (KeyCode::Char(upper), without_shift),
                        None => (*self, modifiers),
                    }
                } else {
                    (*self, modifiers)
                }
            },
            _ => (*self, modifiers),
        }
    }
}

/// `normalize_shift` as a function: with shift held, an ASCII letter is
/// given in uppercase and shift is dropped.
pub open spec fn shift_normalized(key: KeyCode, m: Modifiers) -> (KeyCode, Modifiers) {
    let without_shift = Modifiers { shift: false, ..m };
    match key {
        KeyCode::Char(c) => if m.shift && 0x41 <= (c as u32) && (c as u32) <= 0x5A {
            (key, without_shift)
        } else if m.shift && 0x61 <= (c as u32) && (c as u32) <= 0x7A {
            (KeyCode::Char(((c as u32) - 32) as char), without_shift)
        } else {
            (key, m)
        },
        _ => (key, m),
    }
}

/// The set of logical modifiers held during an input event.
#[derive(Debug, Clone, Copy, PartialEq, Eq, Hash, Default, Structural)]
pub struct Modifiers {
    pub shift: bool,
    pub ctrl: bool,
    pub alt: bool,
    pub super_key: bool,
}

impl Modifiers {
    /// The empty modifier set.
    pub fn none() -> (m: Modifiers)
        ensures
            !m.shift && !m.ctrl && !m.alt && !m.super_key,
    {
        Modifiers { shift: false, ctrl: false, alt: false, super_key: false }
    }
}

/// The set of mouse buttons held during a mouse event.
#[derive(Debug, Clone, Copy, PartialEq, Eq, Hash, Default, Structural)]
pub struct MouseButtons {
    pub left: bool,
    pub middle: bool,
    pub right: bool,
}

/// A pressable mouse button.
#[derive(Debug, Clone, Copy, PartialEq, Eq, Hash, Structural)]
pub enum MousePress {
    Left,
    Middle,
    Right,
}

/// What a mouse event reports.
#[derive(Debug, Clone, Copy, PartialEq, Eq, Hash, Structural)]
pub enum MouseEventKind {
    Move,
    Press(MousePress),
    Release(MousePress),
    VertWheel(i16),
    HorzWheel(i16),
}

/// A mouse event in window and screen coordinates.
#[derive(Debug, Clone, Copy, PartialEq, Eq, Hash, Structural)]
pub struct MouseEvent {
    pub kind: MouseEventKind,
    pub x: isize,
    pub y: isize,
    pub screen_x: isize,
    pub screen_y: isize,
    pub mouse_buttons: MouseButtons,
    pub modifiers: Modifiers,
}

/// Bits of the core protocol's SETofKEYBUTMASK, as carried by key, button and
/// motion events.
pub const KEY_BUT_SHIFT: u32 = 0x0001;
pub const KEY_BUT_LOCK: u32 = 0x0002;
pub const KEY_BUT_CONTROL: u32 = 0x0004;
pub const KEY_BUT_MOD1: u32 = 0x0008;
pub const KEY_BUT_MOD2: u32 = 0x0010;
pub const KEY_BUT_MOD3: u32 = 0x0020;
pub const KEY_BUT_MOD4: u32 = 0x0040;
pub const KEY_BUT_MOD5: u32 = 0x0080;
pub const KEY_BUT_BUTTON1: u32 = 0x0100;
pub const KEY_BUT_BUTTON2: u32 = 0x0200;
pub const KEY_BUT_BUTTON3: u32 = 0x0400;
pub const KEY_BUT_BUTTON4: u32 = 0x0800;
pub const KEY_BUT_BUTTON5: u32 = 0x1000;

/// The key/button state carried by an X11 input event.
#[derive(Debug, Clone, Copy, PartialEq, Eq, Hash, Structural)]
pub struct KeyButMask {
    pub bits: u32,
}

/// Whether every bit of `flag` is set in `bits`.
pub open spec fn has_bits(bits: u32, flag: u32) -> bool {
    bits & flag == flag
}

impl KeyButMask {
    pub open spec fn has(self, flag: u32) -> bool {
        has_bits(self.bits, flag)
    }

    /// The empty mask.
    pub fn empty() -> (m: KeyButMask)
        ensures
            m.bits == 0,
    {
        KeyButMask { bits: 0 }
    }

    /// Whether all bits of `flag` are set.
    pub fn contains(&self, flag: u32) -> (r: bool)
        ensures
            r == self.has(flag),
    {
        self.bits & flag == flag
    }

    /// The mask with the bits of `flag` added.
    pub fn with(&self, flag: u32) -> (m: KeyButMask)
        ensures
            m.bits == self.bits | flag,
    {
        KeyButMask { bits: self.bits | flag }
    }

    /// The mask with the bits of `flag` removed.
    pub fn without(&self, flag: u32) -> (m: KeyButMask)
        ensures
            m.bits == self.bits & !flag,
    {
        KeyButMask { bits: self.bits & !flag }
    }
}

} // verus!

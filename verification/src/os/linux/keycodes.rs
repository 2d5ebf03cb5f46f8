//! Key and mouse translation entry points of the Linux keycode table; the
//! table is not populated on this backend, so lookups report nothing.

use vstd::prelude::*;
use crate::input::{KeyCode, Modifiers};

verus! {

/// The direction of a mouse button transition that the table reports.
#[derive(Clone, Copy, Debug, PartialEq, Eq)]
pub enum MouseEventKind {
    Up,
}

/// A scroll direction.
#[derive(Clone, Copy, Debug)]
pub enum ScrollDirection {
    Up,
    Down,
    Left,
    Right,
}

/// The key and modifiers for a key event; the table translates none.
pub fn keycode_from_key_event(keyval: u32, keycode: u16, state: u32) -> (r: Option<(KeyCode, Modifiers)>)
    ensures
        r is None,
{
    None
}

/// The keyval and state for a key; the table translates none.
pub fn key_event_from_keycode(keycode: KeyCode, mods: Modifiers) -> (r: Option<(u32, u32)>)
    ensures
        r is None,
{
    None
}

/// The transition reported for a mouse button: always `Up`.
pub fn mouse_event_kind_from_button(button: u32) -> (r: MouseEventKind)
    ensures
        r == MouseEventKind::Up,
{
    MouseEventKind::Up
}

} // verus!

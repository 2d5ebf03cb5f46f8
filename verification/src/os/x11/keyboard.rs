//! X11 keyboard state. The backend translates keys through the connection's
//! keyboard state; this type reports raw key codes and no modifiers.

use vstd::prelude::*;

verus! {

/// Why a keyboard could not be set up or updated; no operation of this
/// keyboard fails.
#[derive(Debug, Clone, Copy, PartialEq, Eq)]
pub struct KeyboardError;

/// The keyboard.
#[derive(Debug, Default, Clone)]
pub struct Keyboard;

impl Keyboard {
    /// A keyboard; creation does not fail.
    pub fn new() -> (r: Result<Keyboard, KeyboardError>)
        ensures
            r is Ok,
    {
        Ok(Keyboard)
    }

    /// Takes a new keymap description; nothing changes and nothing fails.
    pub fn update_from_x11(&mut self, keymap_str: &str) -> (r: Result<(), KeyboardError>)
        ensures
            r is Ok,
    {
        Ok(())
    }

    /// The key reported for a key press: the raw keycode itself.
    pub fn key_press(&mut self, keycode: u32) -> (r: Option<u32>)
        ensures
            r == Some(keycode),
    {
        Some(keycode)
    }

    /// The key reported for a key release: the raw keycode itself.
    pub fn key_release(&mut self, keycode: u32) -> (r: Option<u32>)
        ensures
            r == Some(keycode),
    {
        Some(keycode)
    }

    /// The modifier mask in effect: none.
    pub fn get_modifiers(&self) -> (r: u32)
        ensures
            r == 0,
    {
        0
    }

    /// Whether a modifier is active: none is.
    pub fn is_mod_active(&self, modifier: u32) -> (r: bool)
        ensures
            !r,
    {
        false
    }

    /// Whether Control is active: it is not.
    pub fn is_ctrl_active(&self) -> (r: bool)
        ensures
            !r,
    {
        false
    }

    /// Whether Shift is active: it is not.
    pub fn is_shift_active(&self) -> (r: bool)
        ensures
            !r,
    {
        false
    }

    /// Whether Alt is active: it is not.
    pub fn is_alt_active(&self) -> (r: bool)
        ensures
            !r,
    {
        false
    }

    /// Whether Super is active: it is not.
    pub fn is_super_active(&self) -> (r: bool)
        ensures
            !r,
    {
        false
    }
}

} // verus!

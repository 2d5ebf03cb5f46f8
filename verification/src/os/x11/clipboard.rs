//! X11 selection access. Selection ownership and transfer are not provided by
//! this backend: reads find nothing and writes are accepted.

use vstd::prelude::*;
use std::rc::Rc;

verus! {

/// An X11 selection.
#[derive(Debug, Clone, Copy, PartialEq, Eq, Structural)]
pub enum ClipboardSelection {
    Clipboard,
    Primary,
    Secondary,
}

impl Default for ClipboardSelection {
    fn default() -> (r: ClipboardSelection)
        ensures
            r == ClipboardSelection::Clipboard,
    {
        ClipboardSelection::Clipboard
    }
}

/// Selection access over a connection of type `C`.
pub struct X11Clipboard<C> {
    connection: Rc<C>,
}

impl<C> X11Clipboard<C> {
    /// Selection access over `connection`.
    pub fn new(connection: Rc<C>) -> (c: X11Clipboard<C>)
        ensures
            c.connection() == *connection,
    {
        X11Clipboard { connection }
    }

    /// The connection used.
    pub closed spec fn connection(&self) -> C {
        *self.connection
    }

    /// The text of a selection: none is found.
    pub fn get(&self, clipboard: ClipboardSelection) -> (r: Option<String>)
        ensures
            r is None,
    {
        None
    }

    /// Sets the text of a selection: accepted.
    pub fn set(&self, clipboard: ClipboardSelection, text: &str) -> (r: Option<()>)
        ensures
            r == Some(()),
    {
        Some(())
    }
}

} // verus!

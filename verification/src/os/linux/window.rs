//! The Linux window handle: an id into the connection's registry of windows.

use vstd::prelude::*;
use super::connection::{LinuxConnection, WindowRecord};

verus! {

pub const DEFAULT_WINDOW_WIDTH: u32 = 800;
pub const DEFAULT_WINDOW_HEIGHT: u32 = 600;

/// The size of a window created without a requested geometry.
pub fn default_window_size() -> (r: (u32, u32))
    ensures
        r == (800u32, 600u32),
{
    (DEFAULT_WINDOW_WIDTH, DEFAULT_WINDOW_HEIGHT)
}

/// An id taken from the connection for a window being created. It can be
/// used once: registering the window consumes it.
#[derive(Debug)]
pub struct WindowSlot {
    id: usize,
}

impl WindowSlot {
    /// The id taken.
    pub closed spec fn spec_id(&self) -> usize {
        self.id
    }

    /// The id taken.
    pub fn id(&self) -> (r: usize)
        ensures
            r == self.spec_id(),
    {
        self.id
    }
}

/// A top-level window, known by its id in the connection's registry.
#[derive(Debug, Clone, PartialEq, Eq, Hash, Ord, PartialOrd, Structural)]
pub struct Window {
    id: usize,
}

impl Window {
    /// The window's id.
    pub closed spec fn spec_id(&self) -> usize {
        self.id
    }

    /// The window's id.
    pub fn id(&self) -> (r: usize)
        ensures
            r == self.spec_id(),
    {
        self.id
    }

    /// The handle of the window with this id.
    pub fn from_id(id: usize) -> (w: Window)
        ensures
            w.spec_id() == id,
    {
        Window { id }
    }

    /// Takes the connection's next id for a window about to be created. The
    /// id is used up whether or not the creation succeeds.
    pub fn take_slot(conn: &mut LinuxConnection) -> (s: WindowSlot)
        requires
            old(conn).wf(),
        ensures
            s.spec_id() == old(conn).next_id(),
            final(conn).next_id() == (if s.spec_id() == usize::MAX { 0 } else { (s.spec_id() + 1) as usize }),
            final(conn).wf(),
            final(conn).windows_map() == old(conn).windows_map(),
            final(conn).terminating() == old(conn).terminating(),
    {
        WindowSlot { id: conn.next_window_id() }
    }

    /// Registers the window created for `slot`: `created` is the X window
    /// that backs it, `None` where creating it failed, and then nothing is
    /// registered (the slot's id stays used up).
    pub fn create_with_event_sender(conn: &mut LinuxConnection, slot: WindowSlot, created: Option<u32>) -> (r: Option<Window>)
        requires
            old(conn).wf(),
        ensures
            final(conn).wf(),
            final(conn).next_id() == old(conn).next_id(),
            final(conn).terminating() == old(conn).terminating(),
            r is None <==> created is None,
            final(conn).windows_map() == match created {
                Some(xcb_window) => old(conn).windows_map().insert(
                    slot.spec_id(),
                    WindowRecord { id: slot.spec_id(), xcb_window, should_close: false },
                ),
                None => old(conn).windows_map(),
            },
            r matches Some(w) ==> w.spec_id() == slot.spec_id(),
    {
        match created {
            Some(xcb_window) => {
                conn.register_window(slot.id, xcb_window);
                Some(Window { id: slot.id })
            },
            None => None,
        }
    }

    /// A new window created at the default size, registered under `slot` where
    /// its X window `created` exists.
    pub fn new(config: &mut LinuxConnection, slot: WindowSlot, created: Option<u32>) -> (r: Option<Window>)
        requires
            old(config).wf(),
        ensures
            final(config).wf(),
            final(config).next_id() == old(config).next_id(),
            final(config).terminating() == old(config).terminating(),
            r is None <==> created is None,
            final(config).windows_map() == match created {
                Some(xcb_window) => old(config).windows_map().insert(
                    slot.spec_id(),
                    WindowRecord { id: slot.spec_id(), xcb_window, should_close: false },
                ),
                None => old(config).windows_map(),
            },
            r matches Some(w) ==> w.spec_id() == slot.spec_id(),
    {
        Self::create_with_event_sender(config, slot, created)
    }

    /// A new terminal window created at the default size, registered under
    /// `slot` where its X window `created` exists.
    pub fn create_terminal_window(config: &mut LinuxConnection, slot: WindowSlot, created: Option<u32>) -> (r: Option<Window>)
        requires
            old(config).wf(),
        ensures
            final(config).wf(),
            final(config).next_id() == old(config).next_id(),
            final(config).terminating() == old(config).terminating(),
            r is None <==> created is None,
            final(config).windows_map() == match created {
                Some(xcb_window) => old(config).windows_map().insert(
                    slot.spec_id(),
                    WindowRecord { id: slot.spec_id(), xcb_window, should_close: false },
                ),
                None => old(config).windows_map(),
            },
            r matches Some(w) ==> w.spec_id() == slot.spec_id(),
    {
        Self::new(config, slot, created)
    }

    /// A new window for a resolved geometry (its X window `created` at
    /// `new_window_size` of the geometry's size), registered under `slot`
    /// where that X window exists; it is then moved to the position returned,
    /// where the geometry gives both coordinates.
    pub fn new_window(
        config: &mut LinuxConnection,
        slot: WindowSlot,
        created: Option<u32>,
        x: Option<i32>,
        y: Option<i32>,
    ) -> (r: Option<(Window, Option<(isize, isize)>)>)
        requires
            old(config).wf(),
        ensures
            final(config).wf(),
            final(config).next_id() == old(config).next_id(),
            final(config).terminating() == old(config).terminating(),
            r is None <==> created is None,
            final(config).windows_map() == match created {
                Some(xcb_window) => old(config).windows_map().insert(
                    slot.spec_id(),
                    WindowRecord { id: slot.spec_id(), xcb_window, should_close: false },
                ),
                None => old(config).windows_map(),
            },
            r matches Some(p) ==> p.0.spec_id() == slot.spec_id() && p.1 == match (x, y) {
                (Some(x), Some(y)) => Some((x as isize, y as isize)),
                _ => None::<(isize, isize)>,
            },
    {
        match Self::new(config, slot, created) {
            Some(window) => Some((window, Self::new_window_position(x, y))),
            None => None,
        }
    }

    /// The pixel size of a window created for a resolved geometry: each side
    /// at least 1, narrowed to `u32`.
    pub fn new_window_size(width: usize, height: usize) -> (r: (u32, u32))
        ensures
            r.0 == (if width < 1 { 1usize } else { width }) as u32,
            r.1 == (if height < 1 { 1usize } else { height }) as u32,
    {
        let w: usize = if width < 1 { 1 } else { width };
        let h: usize = if height < 1 { 1 } else { height };
        (w as u32, h as u32)
    }

    /// The position a new window is moved to: only where the geometry gives
    /// both coordinates.
    pub fn new_window_position(x: Option<i32>, y: Option<i32>) -> (r: Option<(isize, isize)>)
        ensures
            r == match (x, y) {
                (Some(x), Some(y)) => Some((x as isize, y as isize)),
                _ => None::<(isize, isize)>,
            },
    {
        match (x, y) {
            (Some(x), Some(y)) => Some((x as isize, y as isize)),
            _ => None,
        }
    }

    /// The size the X window is asked for when the window's inner size is set.
    pub fn inner_size_request(width: usize, height: usize) -> (r: (u32, u32))
        ensures
            r == (width as u32, height as u32),
    {
        (width as u32, height as u32)
    }

    /// The position the X window is asked for when the window is moved to
    /// screen coordinates.
    pub fn position_request(x: isize, y: isize) -> (r: (i32, i32))
        ensures
            r == (x as i32, y as i32),
    {
        (x as i32, y as i32)
    }

    /// The registry record of this window.
    pub fn with_window_inner(&self, conn: &LinuxConnection) -> (r: Option<WindowRecord>)
        requires
            conn.wf(),
        ensures
            r == (if conn.windows_map().contains_key(self.spec_id()) {
                Some(conn.windows_map()[self.spec_id()])
            } else {
                None::<WindowRecord>
            }),
    {
        conn.window_by_id(self.id)
    }

    /// Asks this window to close: it is marked, and leaves the registry with
    /// the next event delivered to it.
    pub fn close(&self, conn: &mut LinuxConnection)
        requires
            old(conn).wf(),
        ensures
            final(conn).wf(),
            final(conn).windows_map() == (if old(conn).windows_map().contains_key(self.spec_id()) {
                old(conn).windows_map().insert(self.spec_id(), WindowRecord {
                    should_close: true,
                    ..old(conn).windows_map()[self.spec_id()]
                })
            } else {
                old(conn).windows_map()
            }),
            final(conn).next_id() == old(conn).next_id(),
            final(conn).terminating() == old(conn).terminating(),
    {
        conn.mark_should_close(self.id);
    }
}

} // verus!

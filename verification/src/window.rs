//! The windows of the host process that the overlay knows, and the
//! entities that stand for them.

use crate::table::{id_entries, ids_get, ids_insert, ids_new, ids_remove, IdTable};
use vstd::prelude::*;

verus! {

/// How a window presents its frames.
#[derive(Clone, Copy, Debug, PartialEq, Eq, Structural)]
pub enum PresentMode {
    AutoVsync,
    AutoNoVsync,
    Fifo,
    Immediate,
    Mailbox,
}

/// Whether a window covers the screen.
#[derive(Clone, Copy, Debug, PartialEq, Eq, Structural)]
pub enum WindowMode {
    Windowed,
    BorderlessFullscreen,
    SizedFullscreen,
    Fullscreen,
}

/// How the alpha channel of a window's frames is read.
#[derive(Clone, Copy, Debug, PartialEq, Eq, Structural)]
pub enum CompositeAlphaMode {
    Auto,
    Opaque,
    PreMultiplied,
    PostMultiplied,
    Inherit,
}

/// Where a window stands among the other windows.
#[derive(Clone, Copy, Debug, PartialEq, Eq, Structural)]
pub enum WindowLevel {
    AlwaysOnBottom,
    Normal,
    AlwaysOnTop,
}

/// The colours of a window's frame.
#[derive(Clone, Copy, Debug, PartialEq, Eq, Structural)]
pub enum WindowTheme {
    Light,
    Dark,
}

/// The handle of a window of the host process, as a number.
#[derive(Clone, Copy, Debug, PartialEq, Eq, Structural)]
pub struct Win32WindowHandle(pub u64);

impl Win32WindowHandle {
    /// The handle as a number.
    pub fn handle(&self) -> (h: u64)
        ensures
            h == self.0,
    {
        self.0
    }

    /// The overlay's frames are presented at once.
    pub fn present_mode(&self) -> (m: PresentMode)
        ensures
            m == PresentMode::Immediate,
    {
        PresentMode::Immediate
    }

    /// The host's window is taken to be windowed.
    pub fn mode(&self) -> (m: WindowMode)
        ensures
            m == WindowMode::Windowed,
    {
        WindowMode::Windowed
    }

    /// The overlay's frames carry premultiplied alpha.
    pub fn composite_alpha_mode(&self) -> (m: CompositeAlphaMode)
        ensures
            m == CompositeAlphaMode::PreMultiplied,
    {
        CompositeAlphaMode::PreMultiplied
    }

    /// The overlay does not resize the host's window.
    pub fn resizable(&self) -> (r: bool)
        ensures
            !r,
    {
        false
    }

    /// The overlay draws no decorations.
    pub fn decorations(&self) -> (r: bool)
        ensures
            !r,
    {
        false
    }

    /// The host's window is not transparent.
    pub fn transparent(&self) -> (r: bool)
        ensures
            !r,
    {
        false
    }

    /// The host's window is taken to have the focus.
    pub fn focused(&self) -> (r: bool)
        ensures
            r,
    {
        true
    }

    /// The host's window stands among the others as usual.
    pub fn window_level(&self) -> (l: WindowLevel)
        ensures
            l == WindowLevel::Normal,
    {
        WindowLevel::Normal
    }

    /// A window of the host process has no canvas.
    pub fn canvas(&self) -> (c: Option<String>)
        ensures
            c is None,
    {
        None
    }

    /// A window of the host process has no canvas to fit.
    pub fn fit_canvas_to_parent(&self) -> (r: bool)
        ensures
            !r,
    {
        false
    }

    /// The host handles its events itself.
    pub fn prevent_default_event_handling(&self) -> (r: bool)
        ensures
            !r,
    {
        false
    }

    /// The overlay takes no input-method text.
    pub fn ime_enabled(&self) -> (r: bool)
        ensures
            !r,
    {
        false
    }

    /// The overlay asks for no theme.
    pub fn window_theme(&self) -> (t: Option<WindowTheme>)
        ensures
            t is None,
    {
        None
    }
}

/// The windows that the overlay knows. `windows` lists them in the order in
/// which they were associated; the two tables lead from an entity to its
/// window and from a window to its entity.
pub struct Win32Windows {
    windows: Vec<Win32WindowHandle>,
    entity_to_win32: IdTable,
    win32_to_entity: IdTable,
}

/// The first place at which `handle` stands in `windows`, or the length of
/// `windows` where it stands nowhere.
pub open spec fn first_index(windows: Seq<Win32WindowHandle>, handle: Win32WindowHandle) -> int
    decreases windows.len(),
{
    if windows.len() == 0 || windows[0] == handle {
        0
    } else {
        1 + first_index(windows.drop_first(), handle)
    }
}

/// `windows` without the entry at `index`, whose place the last entry
/// takes.
pub open spec fn swap_removed(windows: Seq<Win32WindowHandle>, index: int) -> Seq<
    Win32WindowHandle,
> {
    windows.update(index, windows.last()).drop_last()
}

impl Default for Win32Windows {
    /// No windows.
    fn default() -> (w: Win32Windows)
        ensures
            w.windows() == Seq::<Win32WindowHandle>::empty(),
            w.entity_to_win32() == Map::<u64, u64>::empty(),
            w.win32_to_entity() == Map::<u64, u64>::empty(),
    {
        Win32Windows::new()
    }
}

impl Win32Windows {
    /// The windows in the order in which they were associated.
    pub closed spec fn windows(&self) -> Seq<Win32WindowHandle> {
        self.windows@
    }

    /// The handle value of each entity's window.
    pub closed spec fn entity_to_win32(&self) -> Map<u64, u64> {
        id_entries(self.entity_to_win32)
    }

    /// The entity of each window, by the window's handle value.
    pub closed spec fn win32_to_entity(&self) -> Map<u64, u64> {
        id_entries(self.win32_to_entity)
    }

    /// No windows.
    pub fn new() -> (w: Win32Windows)
        ensures
            w.windows() == Seq::<Win32WindowHandle>::empty(),
            w.entity_to_win32() == Map::<u64, u64>::empty(),
            w.win32_to_entity() == Map::<u64, u64>::empty(),
    {
        Win32Windows {
            windows: Vec::new(),
            entity_to_win32: ids_new(),
            win32_to_entity: ids_new(),
        }
    }

    /// Makes `entity` stand for the window `window_handle`, and the other
    /// way round, and lists the window.
    pub fn associate_handle_with_entity(&mut self, entity: u64, window_handle: Win32WindowHandle)
        ensures
            final(self).entity_to_win32() == old(self).entity_to_win32().insert(
                entity,
                window_handle.0,
            ),
            final(self).win32_to_entity() == old(self).win32_to_entity().insert(
                window_handle.0,
                entity,
            ),
            final(self).windows() == old(self).windows().push(window_handle),
    {
        ids_insert(&mut self.entity_to_win32, entity, window_handle.0);
        ids_insert(&mut self.win32_to_entity, window_handle.0, entity);
        self.windows.push(window_handle);
    }

    fn position(&self, handle: Win32WindowHandle) -> (r: Option<usize>)
        ensures
            match r {
                Some(i) => i == first_index(self.windows(), handle) && i < self.windows().len()
                    && self.windows()[i as int] == handle,
                None => !self.windows().contains(handle),
            },
    {
        let mut i: usize = 0;
        while i < self.windows.len()
            invariant
                i <= self.windows@.len(),
                forall|j: int| 0 <= j < i ==> self.windows@[j] != handle,
            decreases self.windows@.len() - i,
        {
            if self.windows[i].0 == handle.0 {
                proof {
                    lemma_first_index(self.windows@, handle, i as int);
                }
                return Some(i);
            }
            i = i + 1;
        }
        None
    }

    /// The window that `entity` stands for, if it stands for one and the
    /// window is listed.
    pub fn get_window(&self, entity: u64) -> (r: Option<Win32WindowHandle>)
        ensures
            r == (if self.entity_to_win32().contains_key(entity) && self.windows().contains(
                Win32WindowHandle(self.entity_to_win32()[entity]),
            ) {
                Some(Win32WindowHandle(self.entity_to_win32()[entity]))
            } else {
                None
            }),
    {
        match ids_get(&self.entity_to_win32, entity) {
            None => None,
            Some(value) => {
                let handle = Win32WindowHandle(value);
                match self.position(handle) {
                    Some(i) => Some(self.windows[i]),
                    None => None,
                }
            },
        }
    }

    /// The entity that stands for the window `window_handle`, if one does
    /// or ever did: removing a window does not remove this association.
    pub fn get_window_entity(&self, window_handle: Win32WindowHandle) -> (r: Option<u64>)
        ensures
            r == (if self.win32_to_entity().contains_key(window_handle.0) {
                Some(self.win32_to_entity()[window_handle.0])
            } else {
                None
            }),
    {
        ids_get(&self.win32_to_entity, window_handle.0)
    }

    /// Forgets which window `entity` stands for and takes the window off
    /// the list, where its first entry is replaced by the last. Returns the
    /// window if the entity stood for one and the window was listed. The
    /// association from the window to the entity stays.
    pub fn remove_window(&mut self, entity: u64) -> (r: Option<Win32WindowHandle>)
        ensures
            final(self).entity_to_win32() == old(self).entity_to_win32().remove(entity),
            final(self).win32_to_entity() == old(self).win32_to_entity(),
            r == (if old(self).entity_to_win32().contains_key(entity) && old(
                self,
            ).windows().contains(Win32WindowHandle(old(self).entity_to_win32()[entity])) {
                Some(Win32WindowHandle(old(self).entity_to_win32()[entity]))
            } else {
                None
            }),
            final(self).windows() == (match r {
                Some(handle) => swap_removed(
                    old(self).windows(),
                    first_index(old(self).windows(), handle),
                ),
                None => old(self).windows(),
            }),
    {
        let value = match ids_remove(&mut self.entity_to_win32, entity) {
            Some(value) => value,
            None => {
                return None;
            },
        };
        let handle = Win32WindowHandle(value);
        match self.position(handle) {
            Some(i) => Some(self.windows.swap_remove(i)),
            None => None,
        }
    }
}

/// The first index of a window is the place before which it does not
/// stand and at which it does.
proof fn lemma_first_index(windows: Seq<Win32WindowHandle>, handle: Win32WindowHandle, i: int)
    requires
        0 <= i < windows.len(),
        windows[i] == handle,
        forall|j: int| 0 <= j < i ==> windows[j] != handle,
    ensures
        first_index(windows, handle) == i,
    decreases i,
{
    if i > 0 {
        let rest = windows.drop_first();
        assert(rest[i - 1] == windows[i]);
        assert forall|j: int| 0 <= j < i - 1 implies rest[j] != handle by {
            assert(rest[j] == windows[j + 1]);
        }
        lemma_first_index(rest, handle, i - 1);
    }
}

} // verus!

//! The engine's lock words.

use vstd::prelude::*;

verus! {

/// The engine's recursive mutex: the thread that holds it and how often that
/// thread has taken it.
#[derive(Clone, Copy, Debug, PartialEq, Eq, Structural)]
pub struct ThreadFastMutex {
    pub owner_id: u32,
    pub depth: isize,
}

/// A thread's identity.
pub type ThreadId = usize;

/// The engine's spinning reader-writer lock.
#[derive(Clone, Copy, Debug, PartialEq, Eq, Structural)]
pub struct ThreadSpinRWLock {
    pub lock_info: u32,
    pub writer_id: ThreadId,
}

} // verus!

//! The engine's memory pool, as far as its bookkeeping goes.

use super::threadtools::ThreadFastMutex;
use vstd::prelude::*;

verus! {

/// How a memory pool may grow when it needs a new blob.
#[derive(Clone, Copy, Debug, PartialEq, Eq, Structural)]
pub enum GrowMode {
    /// New blobs are not allowed.
    NONE,
    /// Every new blob is larger than the one before.
    FAST,
    /// Every new blob has the same size.
    SLOW,
}

impl GrowMode {
    /// The mode that the engine stores as `raw`: 0, 1 and 2 stand for
    /// `NONE`, `FAST` and `SLOW`; no other number is a mode.
    pub fn from_raw(raw: u32) -> (m: Option<GrowMode>)
        ensures
            m == (if raw == 0 {
                Some(GrowMode::NONE)
            } else if raw == 1 {
                Some(GrowMode::FAST)
            } else if raw == 2 {
                Some(GrowMode::SLOW)
            } else {
                None
            }),
    {
        if raw == 0 {
            Some(GrowMode::NONE)
        } else if raw == 1 {
            Some(GrowMode::FAST)
        } else if raw == 2 {
            Some(GrowMode::SLOW)
        } else {
            None
        }
    }

    /// The number that the engine stores for this mode.
    pub fn raw(&self) -> (n: u32)
        ensures
            n <= 2,
            n == 0 <==> *self == GrowMode::NONE,
            n == 1 <==> *self == GrowMode::FAST,
            n == 2 <==> *self == GrowMode::SLOW,
    {
        match self {
            GrowMode::NONE => 0,
            GrowMode::FAST => 1,
            GrowMode::SLOW => 2,
        }
    }
}

/// The bookkeeping of a memory pool, with addresses in place of the
/// pointers.
#[derive(Clone, Copy, Debug, PartialEq, Eq, Structural)]
pub struct MemoryPool {
    pub block_size: i32,
    pub blocks_per_blob: i32,
    pub grow_mode: GrowMode,
    pub blocks_allocated: i32,
    pub block_allocated_size: i32,
    pub peak_alloc: i32,
    pub alignment: u16,
    pub blob_num: u16,
    pub free_list_head: usize,
    pub alloc_owner: usize,
    pub blob_head: usize,
}

/// A memory pool with the mutex that guards it.
#[derive(Clone, Copy, Debug, PartialEq, Eq, Structural)]
pub struct MemoryPoolMT {
    pub mp: MemoryPool,
    pub mutex: ThreadFastMutex,
}

} // verus!

//! The engine's thread-safe hash map, as far as it is read from outside.

use super::mempool::MemoryPoolMT;
use core::marker::PhantomData;
use vstd::prelude::*;

verus! {

/// The type of the map's keys.
pub type KeyType = u64;

/// An entry of a fixed block: key, the address of the next entry, data.
#[derive(Debug)]
pub struct HashMapFixedData<T> {
    pub key: KeyType,
    pub next: usize,
    pub data: T,
}

/// An entry of a struct block: data, then the key.
#[derive(Debug)]
pub struct HashMapFixedStructData<T> {
    pub data: T,
    pub key: KeyType,
}

/// A block of entries that were stored as structs.
#[derive(Debug)]
pub struct HashMapStructData<T> {
    pub list: Vec<HashMapFixedStructData<T>>,
}

/// A block of entries that the map has committed.
#[derive(Debug)]
pub struct HashMapAllocatedData<T> {
    pub list: Vec<HashMapFixedData<T>>,
}

/// An entry of a bucket: data, the address of the next entry, key.
#[derive(Debug)]
pub struct HashMapBucketData<T> {
    pub data: T,
    pub next: usize,
    pub key: KeyType,
}

/// A block of entries that wait to be committed. `next` is the address of
/// the block after this one, 0 in the last block.
#[derive(Debug)]
pub struct HashMapUnallocatedData<T> {
    pub next: usize,
    pub key: KeyType,
    pub ui_key: KeyType,
    pub i_key: KeyType,
    pub current_block_list: Vec<HashMapBucketData<T>>,
}

/// The addresses of a map's blocks. The blocks hold entries with data of
/// type `T`.
#[derive(Debug)]
pub struct HashMapBucket<T> {
    pub struct_data: usize,
    pub mutex_list: usize,
    pub allocated_data: usize,
    pub unallocated_data: usize,
    pub entry: PhantomData<T>,
}

/// The engine's thread-safe hash map with data of type `T`.
#[derive(Debug)]
pub struct TSHashMap<T> {
    pub memory_pool: MemoryPoolMT,
    pub buckets: HashMapBucket<T>,
    pub needs_commit: bool,
}

/// A walk along the blocks that wait to be committed. It stands at the
/// address of the block that comes next, or at 0 when no block is left.
#[derive(Debug)]
pub struct TSHashMapUnallocIter<T> {
    pub bucket_ptr: usize,
    pub entry: PhantomData<T>,
}

impl<T> TSHashMapUnallocIter<T> {
    /// The next block, read by `read` from the address at which the walk
    /// stands; the walk moves on to the address that the block names as its
    /// successor. At address 0 the walk is over: nothing is read and
    /// nothing changes.
    pub fn next<F: Fn(usize) -> HashMapUnallocatedData<T>>(&mut self, read: F) -> (r: Option<
        HashMapUnallocatedData<T>,
    >)
        requires
            forall|address: usize| address != 0 ==> call_requires(read, (address,)),
        ensures
            old(self).bucket_ptr == 0 ==> r is None && final(self).bucket_ptr == 0,
            old(self).bucket_ptr != 0 ==> {
                &&& r matches Some(block)
                &&& call_ensures(read, (old(self).bucket_ptr,), block)
                &&& final(self).bucket_ptr == block.next
            },
    {
        if self.bucket_ptr == 0 {
            return None;
        }
        let block = read(self.bucket_ptr);
        self.bucket_ptr = block.next;
        Some(block)
    }
}

impl<T> TSHashMap<T> {
    /// A walk along the blocks that wait to be committed, from the first.
    pub fn unalloc_iter(&self) -> (it: TSHashMapUnallocIter<T>)
        ensures
            it.bucket_ptr == self.buckets.unallocated_data,
    {
        TSHashMapUnallocIter { bucket_ptr: self.buckets.unallocated_data, entry: PhantomData }
    }
}

} // verus!

//! Reusable byte buffers for container I/O.
//!
//! A [`BufferPool`] keeps released buffers in a free list and hands them out
//! again, oldest first, before it makes new ones.

use std::collections::VecDeque;
use vstd::prelude::*;

verus! {

/// Default capacity in bytes of a newly made buffer.
pub const DEFAULT_BUFFER_CAPACITY: usize = 4096;

/// A byte buffer that is written as a whole and read as a whole.
#[derive(Debug)]
pub struct ZeroCopyBuffer {
    data: Vec<u8>,
    capacity: usize,
}

impl View for ZeroCopyBuffer {
    type V = Seq<u8>;

    /// The bytes that the buffer holds.
    closed spec fn view(&self) -> Seq<u8> {
        self.data@
    }
}

impl ZeroCopyBuffer {
    /// The capacity that the buffer was made with.
    pub closed spec fn spec_capacity(&self) -> usize {
        self.capacity
    }

    /// An empty buffer with room for `capacity` bytes.
    pub fn new(capacity: usize) -> (buffer: Self)
        ensures
            buffer@ == Seq::<u8>::empty(),
            buffer.spec_capacity() == capacity,
    {
        Self { data: Vec::with_capacity(capacity), capacity }
    }

    /// Replaces what the buffer holds by `src`.
    pub fn write(&mut self, src: &[u8])
        ensures
            final(self)@ == src@,
            final(self).spec_capacity() == old(self).spec_capacity(),
    {
        self.data.clear();
        self.data.extend_from_slice(src);
        assert(self.data@ =~= src@);
    }

    /// The bytes that the buffer holds.
    pub fn as_slice(&self) -> (bytes: &[u8])
        ensures
            bytes@ == self@,
    {
        self.data.as_slice()
    }

    /// Number of bytes that the buffer holds.
    pub fn len(&self) -> (n: usize)
        ensures
            n == self@.len(),
    {
        self.data.len()
    }

    /// Whether the buffer holds no byte.
    pub fn is_empty(&self) -> (empty: bool)
        ensures
            empty == (self@.len() == 0),
    {
        self.data.len() == 0
    }

    /// The capacity that the buffer was made with.
    pub fn capacity(&self) -> (capacity: usize)
        ensures
            capacity == self.spec_capacity(),
    {
        self.capacity
    }

    /// Empties the buffer for reuse.
    pub fn reset(&mut self)
        ensures
            final(self)@ == Seq::<u8>::empty(),
            final(self).spec_capacity() == old(self).spec_capacity(),
    {
        self.data.clear();
    }
}

/// Runtime statistics of a [`BufferPool`].
#[derive(Debug, Clone, Copy, PartialEq, Eq)]
pub struct BufferPoolStats {
    /// Number of buffers made since the pool was made.
    pub total_allocations: usize,
    /// Number of times a released buffer was handed out again.
    pub reuses: usize,
    /// Number of buffers handed out and not yet released.
    pub active_count: usize,
}

/// What a pool holds: the released buffers, oldest first, and its counters.
pub struct PoolModel {
    pub default_capacity: usize,
    pub free: Seq<ZeroCopyBuffer>,
    pub total_allocations: nat,
    pub reuses: nat,
    pub active_count: nat,
}

/// A pool of reusable [`ZeroCopyBuffer`]s.
pub struct BufferPool {
    default_capacity: usize,
    free_list: VecDeque<ZeroCopyBuffer>,
    total_allocations: usize,
    reuses: usize,
    active_count: usize,
}

impl View for BufferPool {
    type V = PoolModel;

    closed spec fn view(&self) -> PoolModel {
        PoolModel {
            default_capacity: self.default_capacity,
            free: self.free_list@,
            total_allocations: self.total_allocations as nat,
            reuses: self.reuses as nat,
            active_count: self.active_count as nat,
        }
    }
}

impl BufferPool {
    /// An empty pool whose new buffers have room for `capacity` bytes.
    pub fn new(capacity: usize) -> (pool: Self)
        ensures
            pool@ == (PoolModel {
                default_capacity: capacity,
                free: Seq::empty(),
                total_allocations: 0,
                reuses: 0,
                active_count: 0,
            }),
    {
        Self {
            default_capacity: capacity,
            free_list: VecDeque::new(),
            total_allocations: 0,
            reuses: 0,
            active_count: 0,
        }
    }

    /// Hands out an empty buffer: the oldest released one where there is
    /// one, which counts as a reuse, and a new one of the default capacity
    /// otherwise, which counts as an allocation.
    pub fn allocate(&mut self) -> (buffer: ZeroCopyBuffer)
        requires
            old(self)@.total_allocations < usize::MAX,
            old(self)@.reuses < usize::MAX,
            old(self)@.active_count < usize::MAX,
        ensures
            buffer@ == Seq::<u8>::empty(),
            old(self)@.free.len() > 0 ==> {
                &&& buffer.spec_capacity() == old(self)@.free[0].spec_capacity()
                &&& final(self)@ == (PoolModel {
                    free: old(self)@.free.subrange(1, old(self)@.free.len() as int),
                    reuses: old(self)@.reuses + 1,
                    active_count: old(self)@.active_count + 1,
                    ..old(self)@
                })
            },
            old(self)@.free.len() == 0 ==> {
                &&& buffer.spec_capacity() == old(self)@.default_capacity
                &&& final(self)@ == (PoolModel {
                    total_allocations: old(self)@.total_allocations + 1,
                    active_count: old(self)@.active_count + 1,
                    ..old(self)@
                })
            },
    {
        let buffer = match self.free_list.pop_front() {
            Some(mut buffer) => {
                buffer.reset();
                self.reuses = self.reuses + 1;
                buffer
            },
            None => {
                self.total_allocations = self.total_allocations + 1;
                ZeroCopyBuffer::new(self.default_capacity)
            },
        };
        self.active_count = self.active_count + 1;
        buffer
    }

    /// Takes a buffer back for reuse. It joins the free list as it is and is
    /// emptied when it is handed out again.
    pub fn release(&mut self, buffer: ZeroCopyBuffer)
        ensures
            final(self)@ == (PoolModel {
                free: old(self)@.free.push(buffer),
                active_count: if old(self)@.active_count > 0 {
                    (old(self)@.active_count - 1) as nat
                } else {
                    0
                },
                ..old(self)@
            }),
    {
        self.active_count = self.active_count.saturating_sub(1);
        self.free_list.push_back(buffer);
    }

    /// The counters of the pool.
    pub fn get_stats(&self) -> (stats: BufferPoolStats)
        ensures
            stats.total_allocations == self@.total_allocations,
            stats.reuses == self@.reuses,
            stats.active_count == self@.active_count,
    {
        BufferPoolStats {
            total_allocations: self.total_allocations,
            reuses: self.reuses,
            active_count: self.active_count,
        }
    }
}

} // verus!

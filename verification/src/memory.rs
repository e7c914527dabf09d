//! Buffer pool with size classes.
//!
//! Buffers come in six sizes, from 4 KiB to 16 MiB. A request is served
//! from the smallest class that is large enough, and from the largest class
//! where none is. Each class keeps at most 32 spare buffers; a buffer that
//! is in the pool is empty.

use vstd::prelude::*;

verus! {

/// Number of size classes.
pub const SIZE_CLASSES: usize = 6;

/// Number of spare buffers that a class keeps at most.
pub const POOL_COUNT: usize = 32;

/// The size in bytes of the buffers of a class.
pub open spec fn spec_class_size(class: int) -> usize {
    if class == 0 {
        4096
    } else if class == 1 {
        65536
    } else if class == 2 {
        262144
    } else if class == 3 {
        1048576
    } else if class == 4 {
        4194304
    } else {
        16777216
    }
}

/// The class that serves a request for `min_size` bytes: the first one
/// whose buffers are large enough, and the last one where none is.
pub open spec fn spec_size_class(min_size: usize) -> int {
    if min_size <= 4096 {
        0
    } else if min_size <= 65536 {
        1
    } else if min_size <= 262144 {
        2
    } else if min_size <= 1048576 {
        3
    } else if min_size <= 4194304 {
        4
    } else {
        5
    }
}

/// The class of a request is the smallest one that is large enough, where
/// there is one at all.
pub proof fn lemma_size_class_is_smallest_fit(min_size: usize)
    ensures
        0 <= spec_size_class(min_size) < SIZE_CLASSES,
        min_size <= 16777216 ==> spec_class_size(spec_size_class(min_size)) >= min_size,
        forall|class: int|
            0 <= class < spec_size_class(min_size) ==> #[trigger] spec_class_size(class) < min_size,
        min_size > 16777216 ==> spec_size_class(min_size) == SIZE_CLASSES - 1,
{
}

/// The size in bytes of the buffers of a class.
pub fn class_size(class: usize) -> (size: usize)
    ensures
        size == spec_class_size(class as int),
{
    if class == 0 {
        4 * 1024
    } else if class == 1 {
        64 * 1024
    } else if class == 2 {
        256 * 1024
    } else if class == 3 {
        1024 * 1024
    } else if class == 4 {
        4 * 1024 * 1024
    } else {
        16 * 1024 * 1024
    }
}

/// The class that serves a request for `min_size` bytes.
pub fn size_class_for(min_size: usize) -> (class: usize)
    ensures
        class == spec_size_class(min_size),
        class < SIZE_CLASSES,
{
    let mut class: usize = 0;
    while class < SIZE_CLASSES - 1
        invariant
            class < SIZE_CLASSES,
            forall|smaller: int| 0 <= smaller < class ==> #[trigger] spec_class_size(smaller) < min_size,
        decreases SIZE_CLASSES - class,
    {
        if class_size(class) >= min_size {
            proof {
                lemma_class_sizes();
            }
            return class;
        }
        class += 1;
    }
    proof {
        lemma_class_sizes();
    }
    class
}

/// The sizes of the six classes.
proof fn lemma_class_sizes()
    ensures
        spec_class_size(0) == 4096,
        spec_class_size(1) == 65536,
        spec_class_size(2) == 262144,
        spec_class_size(3) == 1048576,
        spec_class_size(4) == 4194304,
        spec_class_size(5) == 16777216,
{
}

/// A buffer of one size class.
#[derive(Debug)]
pub struct PooledBuffer {
    data: Vec<u8>,
    size_class: usize,
}

impl View for PooledBuffer {
    type V = Seq<u8>;

    /// The bytes that the buffer holds.
    closed spec fn view(&self) -> Seq<u8> {
        self.data@
    }
}

impl PooledBuffer {
    /// The size class of the buffer.
    pub closed spec fn class(&self) -> usize {
        self.size_class
    }

    /// The bytes of the buffer, for writing.
    pub fn as_mut_slice(&mut self) -> (bytes: &mut [u8])
        ensures
            bytes@ == old(self)@,
            final(self)@ == final(bytes)@,
            final(self).class() == old(self).class(),
    {
        self.data.as_mut_slice()
    }

    /// The bytes of the buffer.
    pub fn as_slice(&self) -> (bytes: &[u8])
        ensures
            bytes@ == self@,
    {
        self.data.as_slice()
    }

    /// The number of bytes that the buffer has room for: the size of its
    /// class.
    pub fn capacity(&self) -> (capacity: usize)
        ensures
            capacity == spec_class_size(self.class() as int),
    {
        class_size(self.size_class)
    }

    /// Empties the buffer.
    pub fn clear(&mut self)
        ensures
            final(self)@ == Seq::<u8>::empty(),
            final(self).class() == old(self).class(),
    {
        self.data.clear();
    }

    /// Sets the length of the buffer to `new_len`: bytes beyond it are cut
    /// off, and missing ones are filled with `value`.
    pub fn resize(&mut self, new_len: usize, value: u8)
        ensures
            final(self).class() == old(self).class(),
            final(self)@.len() == new_len,
            forall|i: int|
                0 <= i < new_len ==> #[trigger] final(self)@[i] == (if i < old(self)@.len() {
                    old(self)@[i]
                } else {
                    value
                }),
    {
        self.data.resize(new_len, value);
    }
}

/// Statistics of a [`BufferPool`].
#[derive(Debug, Clone, PartialEq, Eq)]
pub struct PoolStats {
    /// Number of spare buffers of all classes.
    pub total_buffers: usize,
    /// Size and number of spare buffers of each class.
    pub buffers_by_size: Vec<(usize, usize)>,
}

/// Sum of the first `n` numbers of the sequence.
pub open spec fn sum_of(counts: Seq<nat>, n: int) -> nat
    decreases n,
{
    if n <= 0 {
        0
    } else {
        sum_of(counts, n - 1) + counts[n - 1]
    }
}

/// Buffer pool with size classes.
pub struct BufferPool {
    pools: Vec<Vec<Vec<u8>>>,
}

impl BufferPool {
    /// Number of spare buffers of each class.
    pub closed spec fn spare(&self) -> Seq<nat> {
        Seq::new(self.pools@.len(), |class: int| self.pools@[class]@.len())
    }

    /// There are six classes, none keeps more than 32 spare buffers, and
    /// every spare buffer is empty.
    pub closed spec fn well_formed(&self) -> bool {
        &&& self.pools@.len() == SIZE_CLASSES
        &&& forall|class: int|
            0 <= class < SIZE_CLASSES ==> (#[trigger] self.pools@[class])@.len() <= POOL_COUNT
        &&& forall|class: int, i: int|
            0 <= class < SIZE_CLASSES && 0 <= i < self.pools@[class]@.len() ==> (
            #[trigger] self.pools@[class]@[i])@.len() == 0
    }

    /// A well-formed pool counts the spares of six classes, and none of the
    /// counts is above 32.
    pub proof fn lemma_spare_counts(&self)
        requires
            self.well_formed(),
        ensures
            self.spare().len() == SIZE_CLASSES,
            forall|class: int| 0 <= class < SIZE_CLASSES ==> #[trigger] self.spare()[class] <= POOL_COUNT,
    {
    }

    /// A pool with 32 spare buffers of each class.
    pub fn new() -> (pool: Self)
        ensures
            pool.well_formed(),
            pool.spare() == Seq::new(SIZE_CLASSES as nat, |class: int| POOL_COUNT as nat),
    {
        let mut pools: Vec<Vec<Vec<u8>>> = Vec::with_capacity(SIZE_CLASSES);
        let mut class: usize = 0;
        while class < SIZE_CLASSES
            invariant
                class <= SIZE_CLASSES,
                pools@.len() == class,
                forall|c: int| 0 <= c < class ==> (#[trigger] pools@[c])@.len() == POOL_COUNT,
                forall|c: int, i: int|
                    0 <= c < class && 0 <= i < pools@[c]@.len() ==> (#[trigger] pools@[c]@[i])@.len()
                        == 0,
            decreases SIZE_CLASSES - class,
        {
            let size = class_size(class);
            let mut pool: Vec<Vec<u8>> = Vec::with_capacity(POOL_COUNT);
            let mut i: usize = 0;
            while i < POOL_COUNT
                invariant
                    i <= POOL_COUNT,
                    pool@.len() == i,
                    forall|j: int| 0 <= j < i ==> (#[trigger] pool@[j])@.len() == 0,
                decreases POOL_COUNT - i,
            {
                pool.push(Vec::with_capacity(size));
                i += 1;
            }
            pools.push(pool);
            class += 1;
        }
        let pool = Self { pools };
        assert(pool.spare() =~= Seq::new(SIZE_CLASSES as nat, |class: int| POOL_COUNT as nat));
        pool
    }

    /// Hands out an empty buffer of the class that serves `min_size` bytes:
    /// a spare one where the class has one, and a new one otherwise.
    pub fn get_buffer(&mut self, min_size: usize) -> (buffer: PooledBuffer)
        requires
            old(self).well_formed(),
        ensures
            final(self).well_formed(),
            buffer@ == Seq::<u8>::empty(),
            buffer.class() == spec_size_class(min_size),
            final(self).spare() == old(self).spare().update(
                spec_size_class(min_size),
                if old(self).spare()[spec_size_class(min_size)] > 0 {
                    (old(self).spare()[spec_size_class(min_size)] - 1) as nat
                } else {
                    0nat
                },
            ),
    {
        let size_class = size_class_for(min_size);
        let pool = &mut self.pools[size_class];
        let data = match pool.pop() {
            Some(data) => data,
            None => Vec::with_capacity(class_size(size_class)),
        };
        proof {
            assert(self.spare() =~= old(self).spare().update(
                spec_size_class(min_size),
                if old(self).spare()[spec_size_class(min_size)] > 0 {
                    (old(self).spare()[spec_size_class(min_size)] - 1) as nat
                } else {
                    0nat
                },
            ));
            assert forall|class: int, i: int|
                0 <= class < SIZE_CLASSES && 0 <= i < self.pools@[class]@.len() implies (
            #[trigger] self.pools@[class]@[i])@.len() == 0 by {
                assert(self.pools@[class]@[i] == old(self).pools@[class]@[i]);
            }
            if old(self).pools@[size_class as int]@.len() > 0 {
                assert(data == old(self).pools@[size_class as int]@[old(
                    self,
                ).pools@[size_class as int]@.len() - 1]);
            }
        }
        PooledBuffer { data, size_class }
    }

    /// Takes a buffer back. It is emptied and kept as a spare of its class
    /// where the class has fewer than 32; otherwise it is dropped.
    pub fn return_buffer(&mut self, buffer: PooledBuffer)
        requires
            old(self).well_formed(),
        ensures
            final(self).well_formed(),
            buffer.class() >= SIZE_CLASSES ==> final(self).spare() == old(self).spare(),
            buffer.class() < SIZE_CLASSES ==> final(self).spare() == old(self).spare().update(
                buffer.class() as int,
                if old(self).spare()[buffer.class() as int] < POOL_COUNT {
                    old(self).spare()[buffer.class() as int] + 1
                } else {
                    old(self).spare()[buffer.class() as int]
                },
            ),
    {
        let mut data = buffer.data;
        data.clear();
        let size_class = buffer.size_class;
        if size_class < SIZE_CLASSES && self.pools[size_class].len() < POOL_COUNT {
            let pool = &mut self.pools[size_class];
            pool.push(data);
        }
        proof {
            if size_class < SIZE_CLASSES {
                assert(self.spare() =~= old(self).spare().update(
                    buffer.class() as int,
                    if old(self).spare()[buffer.class() as int] < POOL_COUNT {
                        old(self).spare()[buffer.class() as int] + 1
                    } else {
                        old(self).spare()[buffer.class() as int]
                    },
                ));
            } else {
                assert(self.spare() =~= old(self).spare());
            }
            assert forall|class: int, i: int|
                0 <= class < SIZE_CLASSES && 0 <= i < self.pools@[class]@.len() implies (
            #[trigger] self.pools@[class]@[i])@.len() == 0 by {
                if i < old(self).pools@[class]@.len() {
                    assert(self.pools@[class]@[i] == old(self).pools@[class]@[i]);
                }
            }
        }
    }

    /// Number of spare buffers, in all and by class.
    pub fn stats(&self) -> (stats: PoolStats)
        requires
            self.well_formed(),
        ensures
            stats.total_buffers == sum_of(self.spare(), SIZE_CLASSES as int),
            stats.buffers_by_size@.len() == SIZE_CLASSES,
            forall|class: int|
                0 <= class < SIZE_CLASSES ==> #[trigger] stats.buffers_by_size@[class] == (
                    spec_class_size(class),
                    self.spare()[class] as usize,
                ),
    {
        let mut total_buffers: usize = 0;
        let mut buffers_by_size: Vec<(usize, usize)> = Vec::new();
        let mut class: usize = 0;
        while class < SIZE_CLASSES
            invariant
                class <= SIZE_CLASSES,
                self.well_formed(),
                total_buffers == sum_of(self.spare(), class as int),
                total_buffers <= class * POOL_COUNT,
                buffers_by_size@.len() == class,
                forall|c: int|
                    0 <= c < class ==> #[trigger] buffers_by_size@[c] == (
                        spec_class_size(c),
                        self.spare()[c] as usize,
                    ),
            decreases SIZE_CLASSES - class,
        {
            let count = self.pools[class].len();
            assert(self.pools@[class as int]@.len() <= POOL_COUNT);
            total_buffers = total_buffers + count;
            buffers_by_size.push((class_size(class), count));
            class += 1;
        }
        PoolStats { total_buffers, buffers_by_size }
    }
}

impl Default for BufferPool {
    fn default() -> (pool: Self)
        ensures
            pool.well_formed(),
            pool.spare() == Seq::new(SIZE_CLASSES as nat, |class: int| POOL_COUNT as nat),
    {
        Self::new()
    }
}

} // verus!

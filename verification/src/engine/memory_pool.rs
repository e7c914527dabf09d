//! Pool of execution contexts.
//!
//! Contexts are recycled through a free list. A context that comes back is
//! scrubbed before it joins the list, so that nothing of one container is
//! ever handed to another.

use crate::engine::resource_limits::MIB;
use crate::executor::{ExecutionContext, NetworkConfig, ResourceLimits};
use std::collections::HashMap;
use std::collections::VecDeque;
use vstd::prelude::*;
use vstd::string::*;

verus! {

/// `VecDeque::shrink_to_fit`: gives back spare capacity. What the queue
/// holds stays as it is.
#[verifier::external_body]
fn shrink_queue(queue: &mut VecDeque<ExecutionContext>)
    ensures
        final(queue)@ == old(queue)@,
{
    queue.shrink_to_fit()
}

/// Statistics of a [`ContextPool`].
#[derive(Debug, Clone, Copy, PartialEq, Eq)]
pub struct PoolStats {
    /// Contexts that belong to the pool, free or handed out.
    pub pool_size: usize,
    /// Contexts handed out and not yet returned.
    pub active_count: usize,
    /// Number of contexts returned so far.
    pub recycled_count: u64,
    /// Highest `active_count` so far.
    pub peak_usage: usize,
}

/// What a pool holds: the free contexts, oldest first, and its counters.
pub struct ContextPoolModel {
    pub free: Seq<ExecutionContext>,
    pub active_count: nat,
    pub recycled_count: nat,
    pub peak_usage: nat,
}

/// A pool of reusable [`ExecutionContext`]s.
pub struct ContextPool {
    free_list: VecDeque<ExecutionContext>,
    active_count: usize,
    recycled_count: u64,
    peak_usage: usize,
}

impl View for ContextPool {
    type V = ContextPoolModel;

    closed spec fn view(&self) -> ContextPoolModel {
        ContextPoolModel {
            free: self.free_list@,
            active_count: self.active_count as nat,
            recycled_count: self.recycled_count as nat,
            peak_usage: self.peak_usage as nat,
        }
    }
}

/// A context that belongs to no container and has the default settings.
pub open spec fn is_default_context(context: ExecutionContext) -> bool {
    context.scrubbed() && has_default_settings(context)
}

/// The default settings: the root directory, one core, 256 MiB of memory,
/// 128 processes and an isolated network without DNS servers.
pub open spec fn has_default_settings(context: ExecutionContext) -> bool {
    &&& context.workdir@ == "/"@
    &&& context.limits == (ResourceLimits {
        cpu_millicores: 1000,
        memory_bytes: (256 * MIB) as u64,
        pid_limit: 128,
    })
    &&& context.network.isolated
    &&& context.network.ip_address is None
    &&& context.network.dns_servers@.len() == 0
}

impl ContextPoolModel {
    /// Every free context is scrubbed, and the contexts of the pool, free
    /// and handed out, can be counted.
    pub open spec fn well_formed(self) -> bool {
        &&& forall|i: int| 0 <= i < self.free.len() ==> (#[trigger] self.free[i]).scrubbed()
        &&& self.free.len() + self.active_count <= usize::MAX
    }
}

impl ContextPool {
    /// A pool with `capacity` free default contexts.
    pub fn new(capacity: usize) -> (pool: Self)
        ensures
            pool@.well_formed(),
            pool@.free.len() == capacity,
            forall|i: int| 0 <= i < capacity ==> is_default_context(#[trigger] pool@.free[i]),
            pool@.active_count == 0,
            pool@.recycled_count == 0,
            pool@.peak_usage == 0,
    {
        let mut free_list: VecDeque<ExecutionContext> = VecDeque::with_capacity(capacity);
        let mut i: usize = 0;
        while i < capacity
            invariant
                i <= capacity,
                free_list@.len() == i,
                forall|j: int| 0 <= j < i ==> is_default_context(#[trigger] free_list@[j]),
            decreases capacity - i,
        {
            free_list.push_back(Self::default_context());
            i += 1;
        }
        Self { free_list, active_count: 0, recycled_count: 0, peak_usage: 0 }
    }

    /// Hands out a context for the container: the oldest free one where
    /// there is one, and a new default context otherwise. The context
    /// carries the identifier of the container and no environment.
    pub fn acquire(&mut self, container_id: &str) -> (context: ExecutionContext)
        requires
            old(self)@.well_formed(),
            old(self)@.active_count < usize::MAX,
        ensures
            final(self)@.well_formed(),
            context.container_id@ == container_id@,
            context.env@ == Map::<String, String>::empty(),
            old(self)@.free.len() > 0 ==> {
                &&& context.workdir == old(self)@.free[0].workdir
                &&& context.limits == old(self)@.free[0].limits
                &&& context.network == old(self)@.free[0].network
                &&& final(self)@.free == old(self)@.free.subrange(1, old(self)@.free.len() as int)
            },
            old(self)@.free.len() == 0 ==> {
                &&& has_default_settings(context)
                &&& final(self)@.free == old(self)@.free
            },
            final(self)@.active_count == old(self)@.active_count + 1,
            final(self)@.recycled_count == old(self)@.recycled_count,
            final(self)@.peak_usage == (if old(self)@.active_count + 1 > old(self)@.peak_usage {
                old(self)@.active_count + 1
            } else {
                old(self)@.peak_usage
            }),
    {
        let mut context = match self.free_list.pop_front() {
            Some(context) => {
                assert(old(self)@.free[0].scrubbed());
                context
            },
            None => Self::default_context(),
        };
        context.container_id = String::from_str(container_id);
        self.active_count = self.active_count + 1;
        if self.active_count > self.peak_usage {
            self.peak_usage = self.active_count;
        }
        proof {
            assert forall|i: int| 0 <= i < self@.free.len() implies (#[trigger] self@.free[i]).scrubbed() by {
                if old(self)@.free.len() > 0 {
                    assert(self@.free[i] == old(self)@.free[i + 1]);
                }
            }
        }
        context
    }

    /// Takes a context back. Its identifier and its environment are cleared
    /// before it joins the free list.
    pub fn release(&mut self, ctx: ExecutionContext)
        requires
            old(self)@.well_formed(),
            old(self)@.recycled_count < u64::MAX,
        ensures
            final(self)@.well_formed(),
            final(self)@.free.len() == old(self)@.free.len() + 1,
            final(self)@.free.drop_last() == old(self)@.free,
            final(self)@.free.last().scrubbed(),
            final(self)@.free.last().workdir == ctx.workdir,
            final(self)@.free.last().limits == ctx.limits,
            final(self)@.free.last().network == ctx.network,
            final(self)@.active_count == (if old(self)@.active_count > 0 {
                (old(self)@.active_count - 1) as nat
            } else {
                0
            }),
            final(self)@.recycled_count == old(self)@.recycled_count + 1,
            final(self)@.peak_usage == old(self)@.peak_usage,
    {
        let mut ctx = ctx;
        ctx.scrub();
        self.active_count = self.active_count.saturating_sub(1);
        self.recycled_count = self.recycled_count + 1;
        self.free_list.push_back(ctx);
        proof {
            assert(self@.free.drop_last() =~= old(self)@.free);
            assert(self.free_list.len() == self.free_list@.len());
        }
    }

    /// The counters of the pool.
    pub fn stats(&self) -> (stats: PoolStats)
        requires
            self@.well_formed(),
        ensures
            stats.pool_size == self@.free.len() + self@.active_count,
            stats.active_count == self@.active_count,
            stats.recycled_count == self@.recycled_count,
            stats.peak_usage == self@.peak_usage,
    {
        PoolStats {
            pool_size: self.free_list.len() + self.active_count,
            active_count: self.active_count,
            recycled_count: self.recycled_count,
            peak_usage: self.peak_usage,
        }
    }

    /// Number of free contexts.
    pub fn free_count(&self) -> (count: usize)
        ensures
            count == self@.free.len(),
    {
        self.free_list.len()
    }

    /// Drops free contexts, newest first, until no more are left than the
    /// peak usage, or one where the pool was never used.
    pub fn shrink_to_fit(&mut self)
        requires
            old(self)@.well_formed(),
        ensures
            final(self)@.well_formed(),
            final(self)@ == (ContextPoolModel {
                free: old(self)@.free.take(
                    if old(self)@.free.len() <= Self::target(old(self)@.peak_usage) {
                        old(self)@.free.len() as int
                    } else {
                        Self::target(old(self)@.peak_usage) as int
                    },
                ),
                ..old(self)@
            }),
    {
        let target = if self.peak_usage > 1 {
            self.peak_usage
        } else {
            1
        };
        proof {
            assert(self@.free.take(self@.free.len() as int) =~= self@.free);
        }
        while self.free_list.len() > target
            invariant
                self.free_list@.len() <= old(self)@.free.len(),
                target == Self::target(old(self)@.peak_usage),
                old(self)@.free.len() <= target ==> self.free_list@.len() == old(self)@.free.len(),
                old(self)@.free.len() > target ==> self.free_list@.len() >= target,
                self.free_list@ == old(self)@.free.take(self.free_list@.len() as int),
                self.active_count == old(self).active_count,
                self.recycled_count == old(self).recycled_count,
                self.peak_usage == old(self).peak_usage,
            decreases self.free_list@.len(),
        {
            self.free_list.pop_back();
            proof {
                assert(self.free_list@ =~= old(self)@.free.take(self.free_list@.len() as int));
            }
        }
        shrink_queue(&mut self.free_list);
    }

    /// Number of free contexts that shrinking keeps at most.
    pub open spec fn target(peak_usage: nat) -> nat {
        if peak_usage > 1 {
            peak_usage
        } else {
            1
        }
    }

    /// A context that belongs to no container and has the default settings.
    fn default_context() -> (context: ExecutionContext)
        ensures
            is_default_context(context),
    {
        ExecutionContext {
            container_id: String::new(),
            env: HashMap::new(),
            workdir: String::from_str("/"),
            limits: ResourceLimits { cpu_millicores: 1000, memory_bytes: 256 * MIB, pid_limit: 128 },
            network: NetworkConfig { isolated: true, ip_address: None, dns_servers: Vec::new() },
        }
    }
}

} // verus!

//! Performance counters of the runtime.
//!
//! Every kind of operation has a count and, where it takes time, a total of
//! nanoseconds. The counters are independent of each other and only ever
//! move forward until they are reset; a counter that has reached the end of
//! its 64 bits starts again at zero.

use crate::clock::{elapsed_since, nanos_of, now};
use std::time::Instant;
use vstd::prelude::*;

verus! {

/// Performance counters of one runtime.
#[derive(Debug, Clone, Copy, PartialEq, Eq)]
pub struct PerfMetrics {
    pub container_starts: u64,
    pub container_start_time_ns: u64,
    pub container_stops: u64,
    pub container_stop_time_ns: u64,
    pub namespace_creates: u64,
    pub namespace_create_time_ns: u64,
    pub namespace_cache_hits: u64,
    pub executions: u64,
    pub execution_time_ns: u64,
    pub buffer_allocations: u64,
    pub buffer_reuses: u64,
    pub plugin_loads: u64,
    pub plugin_load_time_ns: u64,
}

/// The kinds of timed operation.
#[derive(Debug, Clone, Copy, PartialEq, Eq, Structural)]
pub enum TimerType {
    ContainerStart,
    ContainerStop,
    NamespaceCreate,
    Execution,
    PluginLoad,
}

impl PerfMetrics {
    /// Counters that have counted nothing.
    pub open spec fn zero() -> PerfMetrics {
        PerfMetrics {
            container_starts: 0,
            container_start_time_ns: 0,
            container_stops: 0,
            container_stop_time_ns: 0,
            namespace_creates: 0,
            namespace_create_time_ns: 0,
            namespace_cache_hits: 0,
            executions: 0,
            execution_time_ns: 0,
            buffer_allocations: 0,
            buffer_reuses: 0,
            plugin_loads: 0,
            plugin_load_time_ns: 0,
        }
    }

    /// The counters after one more operation of the given kind that took
    /// `nanos` nanoseconds: its count is one higher, its total `nanos`
    /// higher, and every other counter is as before.
    pub open spec fn recorded(self, metric_type: TimerType, nanos: u64) -> PerfMetrics {
        match metric_type {
            TimerType::ContainerStart => PerfMetrics {
                container_starts: self.container_starts.wrapping_add(1),
                container_start_time_ns: self.container_start_time_ns.wrapping_add(nanos),
                ..self
            },
            TimerType::ContainerStop => PerfMetrics {
                container_stops: self.container_stops.wrapping_add(1),
                container_stop_time_ns: self.container_stop_time_ns.wrapping_add(nanos),
                ..self
            },
            TimerType::NamespaceCreate => PerfMetrics {
                namespace_creates: self.namespace_creates.wrapping_add(1),
                namespace_create_time_ns: self.namespace_create_time_ns.wrapping_add(nanos),
                ..self
            },
            TimerType::Execution => PerfMetrics {
                executions: self.executions.wrapping_add(1),
                execution_time_ns: self.execution_time_ns.wrapping_add(nanos),
                ..self
            },
            TimerType::PluginLoad => PerfMetrics {
                plugin_loads: self.plugin_loads.wrapping_add(1),
                plugin_load_time_ns: self.plugin_load_time_ns.wrapping_add(nanos),
                ..self
            },
        }
    }

    /// Counters that have counted nothing.
    pub fn new() -> (metrics: Self)
        ensures
            metrics == Self::zero(),
    {
        PerfMetrics {
            container_starts: 0,
            container_start_time_ns: 0,
            container_stops: 0,
            container_stop_time_ns: 0,
            namespace_creates: 0,
            namespace_create_time_ns: 0,
            namespace_cache_hits: 0,
            executions: 0,
            execution_time_ns: 0,
            buffer_allocations: 0,
            buffer_reuses: 0,
            plugin_loads: 0,
            plugin_load_time_ns: 0,
        }
    }

    /// Records one operation of the given kind that took `nanos`
    /// nanoseconds.
    pub fn record(&mut self, metric_type: TimerType, nanos: u64)
        ensures
            *final(self) == old(self).recorded(metric_type, nanos),
    {
        match metric_type {
            TimerType::ContainerStart => self.record_container_start(nanos),
            TimerType::ContainerStop => self.record_container_stop(nanos),
            TimerType::NamespaceCreate => self.record_namespace_create(nanos),
            TimerType::Execution => self.record_execution(nanos),
            TimerType::PluginLoad => self.record_plugin_load(nanos),
        }
    }

    /// Records a container start that took `nanos` nanoseconds.
    pub fn record_container_start(&mut self, nanos: u64)
        ensures
            *final(self) == old(self).recorded(TimerType::ContainerStart, nanos),
    {
        self.container_starts = self.container_starts.wrapping_add(1);
        self.container_start_time_ns = self.container_start_time_ns.wrapping_add(nanos);
    }

    /// Records a container stop that took `nanos` nanoseconds.
    pub fn record_container_stop(&mut self, nanos: u64)
        ensures
            *final(self) == old(self).recorded(TimerType::ContainerStop, nanos),
    {
        self.container_stops = self.container_stops.wrapping_add(1);
        self.container_stop_time_ns = self.container_stop_time_ns.wrapping_add(nanos);
    }

    /// Records a namespace creation that took `nanos` nanoseconds.
    pub fn record_namespace_create(&mut self, nanos: u64)
        ensures
            *final(self) == old(self).recorded(TimerType::NamespaceCreate, nanos),
    {
        self.namespace_creates = self.namespace_creates.wrapping_add(1);
        self.namespace_create_time_ns = self.namespace_create_time_ns.wrapping_add(nanos);
    }

    /// Records a workload execution that took `nanos` nanoseconds.
    pub fn record_execution(&mut self, nanos: u64)
        ensures
            *final(self) == old(self).recorded(TimerType::Execution, nanos),
    {
        self.executions = self.executions.wrapping_add(1);
        self.execution_time_ns = self.execution_time_ns.wrapping_add(nanos);
    }

    /// Records a plugin load that took `nanos` nanoseconds.
    pub fn record_plugin_load(&mut self, nanos: u64)
        ensures
            *final(self) == old(self).recorded(TimerType::PluginLoad, nanos),
    {
        self.plugin_loads = self.plugin_loads.wrapping_add(1);
        self.plugin_load_time_ns = self.plugin_load_time_ns.wrapping_add(nanos);
    }

    /// Records the reuse of a cached namespace.
    pub fn record_namespace_cache_hit(&mut self)
        ensures
            *final(self) == (PerfMetrics {
                namespace_cache_hits: old(self).namespace_cache_hits.wrapping_add(1),
                ..*old(self)
            }),
    {
        self.namespace_cache_hits = self.namespace_cache_hits.wrapping_add(1);
    }

    /// Records the allocation of a buffer.
    pub fn record_buffer_allocation(&mut self)
        ensures
            *final(self) == (PerfMetrics {
                buffer_allocations: old(self).buffer_allocations.wrapping_add(1),
                ..*old(self)
            }),
    {
        self.buffer_allocations = self.buffer_allocations.wrapping_add(1);
    }

    /// Records the reuse of a pooled buffer.
    pub fn record_buffer_reuse(&mut self)
        ensures
            *final(self) == (PerfMetrics {
                buffer_reuses: old(self).buffer_reuses.wrapping_add(1),
                ..*old(self)
            }),
    {
        self.buffer_reuses = self.buffer_reuses.wrapping_add(1);
    }

    /// The counters as they are now, with the totals they have summed up.
    pub fn snapshot(&self) -> (snapshot: PerfSnapshot)
        ensures
            snapshot.counters == *self,
    {
        PerfSnapshot { counters: *self }
    }

    /// Sets every counter back to zero.
    pub fn reset(&mut self)
        ensures
            *final(self) == Self::zero(),
    {
        *self = Self::new();
    }
}

impl Default for PerfMetrics {
    fn default() -> (metrics: Self)
        ensures
            metrics == Self::zero(),
    {
        Self::new()
    }
}

/// The mean of `total` over `count` operations, rounded down, and 0 where
/// there was no operation.
pub open spec fn mean(count: u64, total: u64) -> u64 {
    if count == 0 {
        0
    } else {
        total / count
    }
}

/// The share of `part` in `part + rest` in hundredths of a percent, rounded
/// down, and 0 where both are 0.
pub open spec fn share_in_basis_points(part: u64, rest: u64) -> int {
    if part + rest == 0 {
        0
    } else {
        part * 10000 / (part + rest)
    }
}

/// The counters at one point in time.
#[derive(Debug, Clone, Copy, PartialEq, Eq)]
pub struct PerfSnapshot {
    pub counters: PerfMetrics,
}

impl PerfSnapshot {
    /// Mean time of an operation of the given kind in nanoseconds, rounded
    /// down, and 0 where there was none.
    pub fn mean_nanos(&self, metric_type: TimerType) -> (nanos: u64)
        ensures
            nanos == (match metric_type {
                TimerType::ContainerStart => mean(
                    self.counters.container_starts,
                    self.counters.container_start_time_ns,
                ),
                TimerType::ContainerStop => mean(
                    self.counters.container_stops,
                    self.counters.container_stop_time_ns,
                ),
                TimerType::NamespaceCreate => mean(
                    self.counters.namespace_creates,
                    self.counters.namespace_create_time_ns,
                ),
                TimerType::Execution => mean(self.counters.executions, self.counters.execution_time_ns),
                TimerType::PluginLoad => mean(
                    self.counters.plugin_loads,
                    self.counters.plugin_load_time_ns,
                ),
            }),
    {
        let (count, total) = match metric_type {
            TimerType::ContainerStart => (
                self.counters.container_starts,
                self.counters.container_start_time_ns,
            ),
            TimerType::ContainerStop => (
                self.counters.container_stops,
                self.counters.container_stop_time_ns,
            ),
            TimerType::NamespaceCreate => (
                self.counters.namespace_creates,
                self.counters.namespace_create_time_ns,
            ),
            TimerType::Execution => (self.counters.executions, self.counters.execution_time_ns),
            TimerType::PluginLoad => (self.counters.plugin_loads, self.counters.plugin_load_time_ns),
        };
        if count == 0 {
            0
        } else {
            total / count
        }
    }

    /// Share of buffer reuses in all buffer requests, in hundredths of a
    /// percent, rounded down; 0 where there was no request.
    pub fn buffer_reuse_basis_points(&self) -> (share: u64)
        ensures
            share == share_in_basis_points(
                self.counters.buffer_reuses,
                self.counters.buffer_allocations,
            ),
            share <= 10000,
    {
        let reuses: u128 = self.counters.buffer_reuses as u128;
        let allocations: u128 = self.counters.buffer_allocations as u128;
        let total: u128 = reuses + allocations;
        if total == 0 {
            0
        } else {
            proof {
                let r = reuses as int;
                let t = total as int;
                assert(r * 10000 <= t * 10000) by (nonlinear_arith)
                    requires
                        r <= t,
                ;
                assert(r * 10000 / t <= 10000) by (nonlinear_arith)
                    requires
                        0 <= r * 10000 <= t * 10000,
                        t > 0,
                ;
                assert(0 <= r * 10000 / t) by (nonlinear_arith)
                    requires
                        0 <= r,
                        t > 0,
                ;
                assert(r * 10000 <= 0xffff_ffff_ffff_ffff * 10000) by (nonlinear_arith)
                    requires
                        r <= 0xffff_ffff_ffff_ffff,
                ;
            }
            (reuses * 10000 / total) as u64
        }
    }
}

/// Measures one operation from its start to its end.
pub struct ScopedTimer {
    start: Instant,
    metric_type: TimerType,
}

impl ScopedTimer {
    /// The kind of operation that is being measured.
    pub closed spec fn spec_metric_type(&self) -> TimerType {
        self.metric_type
    }

    /// Starts measuring an operation of the given kind.
    pub fn new(metric_type: TimerType) -> (timer: Self)
        ensures
            timer.spec_metric_type() == metric_type,
    {
        Self { start: now(), metric_type }
    }

    /// Ends the measurement and records the operation: its count goes up by
    /// one and its total by the time measured, which is arbitrary; every
    /// other counter stays as it is.
    pub fn finish(self, metrics: &mut PerfMetrics)
        ensures
            exists|nanos: u64| *final(metrics) == old(metrics).recorded(self.spec_metric_type(), nanos),
    {
        let nanos = nanos_of(&elapsed_since(&self.start));
        metrics.record(self.metric_type, nanos);
    }
}

} // verus!

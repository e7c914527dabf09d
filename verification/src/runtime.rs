//! The startup coordinator.
//!
//! A launch goes through the states *requested*, *namespace resolved*,
//! *limits applied*, *context assembled* and *running*, in this order and
//! without skipping one; a running container can be stopped once. The
//! namespace of a launch is taken from the cache of the runtime where a
//! cached one is still valid, and brought up fresh otherwise. Either the
//! whole progression completes and a handle is returned, or the launch fails
//! and no successful start is counted.

use crate::clock::{elapsed_since, nanos_of, now};
use crate::engine::isolation::{Isolation, IsolationConfig};
use crate::engine::namespace_cache::NamespaceTemplate;
use crate::engine::parallel_setup::{
    NamespaceKind,
    NamespaceSetupConfig,
    ParallelNamespaceSetup,
    ParallelSetupReport,
    SetupResult,
};
use crate::engine::resource_limits::{
    lists_exactly,
    ApplySession,
    LimitError,
    OptimizedResourceLimits,
    ResourceKind,
    ResourceProfile,
    MIB,
};
use crate::executor::{ExecutionContext, NetworkConfig, ResourceLimits};
use crate::memory::{spec_size_class, BufferPool};
use crate::perf::{PerfMetrics, TimerType};
use std::collections::HashMap;
use vstd::prelude::*;
use vstd::string::*;

verus! {

/// Size in bytes of the buffer through which logs are read.
pub const LOG_BUFFER_SIZE: usize = 64 * 1024;

/// How long a cached namespace stays valid unless the runtime is told
/// otherwise, in milliseconds.
pub const NAMESPACE_VALIDITY_MS: u64 = 60_000;

/// Configuration of the fast startup path.
#[derive(Debug, Clone, Copy, PartialEq, Eq)]
pub struct FastStartConfig {
    /// Bring the namespaces up side by side.
    pub parallel_namespaces: bool,
    /// Reuse cached namespaces.
    pub use_namespace_cache: bool,
    /// Pre-warm the executor pool.
    pub prewarm_executors: bool,
    /// Maximum number of cached namespaces.
    pub max_cached_namespaces: usize,
}

impl Default for FastStartConfig {
    /// Everything switched on, and room for ten cached namespaces.
    fn default() -> (config: Self)
        ensures
            config.parallel_namespaces,
            config.use_namespace_cache,
            config.prewarm_executors,
            config.max_cached_namespaces == 10,
    {
        Self {
            parallel_namespaces: true,
            use_namespace_cache: true,
            prewarm_executors: true,
            max_cached_namespaces: 10,
        }
    }
}

/// A namespace set that is ready for reuse: its identifier, and the time at
/// which it was put into the cache, in milliseconds of the caller's clock.
#[derive(Debug, Clone, Copy, PartialEq, Eq)]
pub struct CachedNamespace {
    pub id: u64,
    pub created_at_ms: u64,
}

impl CachedNamespace {
    /// Age of the entry at the time `now_ms`. An entry from the future has
    /// age 0.
    pub open spec fn age_at(self, now_ms: u64) -> int {
        if now_ms >= self.created_at_ms {
            now_ms - self.created_at_ms
        } else {
            0
        }
    }

    /// Whether the entry may be reused at the time `now_ms`: it is younger
    /// than the validity window of `window_ms` milliseconds.
    pub open spec fn valid_within(self, now_ms: u64, window_ms: u64) -> bool {
        self.age_at(now_ms) < window_ms
    }

    /// Whether the entry may be reused at the time `now_ms` under the
    /// default validity window of 60 seconds.
    pub open spec fn valid_at(self, now_ms: u64) -> bool {
        self.valid_within(now_ms, NAMESPACE_VALIDITY_MS)
    }

    /// Whether the entry may be reused at the time `now_ms`: it is younger
    /// than the validity window of `window_ms` milliseconds.
    pub fn is_valid_within(&self, now_ms: u64, window_ms: u64) -> (valid: bool)
        ensures
            valid == self.valid_within(now_ms, window_ms),
    {
        if now_ms >= self.created_at_ms {
            now_ms - self.created_at_ms < window_ms
        } else {
            0 < window_ms
        }
    }

    /// Whether the entry may be reused at the time `now_ms` under the
    /// default validity window of 60 seconds.
    pub fn is_valid_at(&self, now_ms: u64) -> (valid: bool)
        ensures
            valid == self.valid_at(now_ms),
    {
        self.is_valid_within(now_ms, NAMESPACE_VALIDITY_MS)
    }
}

/// The states of a launch.
#[derive(Debug, Clone, Copy, PartialEq, Eq, Structural)]
pub enum LaunchState {
    Requested,
    NamespaceResolved,
    LimitsApplied,
    ContextAssembled,
    Running,
    Stopped,
    Failed,
}

/// What moves a launch from one state to the next.
#[derive(Debug, Clone, Copy, PartialEq, Eq, Structural)]
pub enum LaunchEvent {
    /// A namespace was taken from the cache or brought up fresh.
    NamespaceReady,
    /// The fresh bring-up failed.
    NamespaceFailed,
    /// The resource limits are in place.
    LimitsReady,
    /// The resource limits could not be applied.
    LimitsFailed,
    /// The execution context was built.
    ContextReady,
    /// The handle of the container was made.
    Started,
    /// The container was stopped.
    Stop,
}

impl LaunchState {
    /// The state that the event leads to, or `None` where the event has no
    /// place in the state.
    pub open spec fn spec_advance(self, event: LaunchEvent) -> Option<LaunchState> {
        match (self, event) {
            (LaunchState::Requested, LaunchEvent::NamespaceReady) => Some(LaunchState::NamespaceResolved),
            (LaunchState::Requested, LaunchEvent::NamespaceFailed) => Some(LaunchState::Failed),
            (LaunchState::NamespaceResolved, LaunchEvent::LimitsReady) => Some(LaunchState::LimitsApplied),
            (LaunchState::NamespaceResolved, LaunchEvent::LimitsFailed) => Some(LaunchState::Failed),
            (LaunchState::LimitsApplied, LaunchEvent::ContextReady) => Some(LaunchState::ContextAssembled),
            (LaunchState::ContextAssembled, LaunchEvent::Started) => Some(LaunchState::Running),
            (LaunchState::Running, LaunchEvent::Stop) => Some(LaunchState::Stopped),
            _ => None,
        }
    }

    /// The state after a sequence of events, or `None` where one of them
    /// has no place in the state it meets.
    pub open spec fn run(self, events: Seq<LaunchEvent>) -> Option<LaunchState>
        decreases events.len(),
    {
        if events.len() == 0 {
            Some(self)
        } else {
            match self.run(events.drop_last()) {
                Some(state) => state.spec_advance(events.last()),
                None => None,
            }
        }
    }

    /// The state that the event leads to, or `None` where the event has no
    /// place in the state.
    pub fn advance(self, event: LaunchEvent) -> (next: Option<LaunchState>)
        ensures
            next == self.spec_advance(event),
    {
        match (self, event) {
            (LaunchState::Requested, LaunchEvent::NamespaceReady) => Some(LaunchState::NamespaceResolved),
            (LaunchState::Requested, LaunchEvent::NamespaceFailed) => Some(LaunchState::Failed),
            (LaunchState::NamespaceResolved, LaunchEvent::LimitsReady) => Some(LaunchState::LimitsApplied),
            (LaunchState::NamespaceResolved, LaunchEvent::LimitsFailed) => Some(LaunchState::Failed),
            (LaunchState::LimitsApplied, LaunchEvent::ContextReady) => Some(LaunchState::ContextAssembled),
            (LaunchState::ContextAssembled, LaunchEvent::Started) => Some(LaunchState::Running),
            (LaunchState::Running, LaunchEvent::Stop) => Some(LaunchState::Stopped),
            _ => None,
        }
    }
}

/// There is one way to get a container running: the namespace is resolved
/// first, then the limits are applied, then the context is assembled, then
/// the container is started.
pub proof fn lemma_one_way_to_running(events: Seq<LaunchEvent>)
    requires
        LaunchState::Requested.run(events) == Some(LaunchState::Running),
    ensures
        events == seq![
            LaunchEvent::NamespaceReady,
            LaunchEvent::LimitsReady,
            LaunchEvent::ContextReady,
            LaunchEvent::Started,
        ],
{
    let start = LaunchState::Requested;
    let e4 = events;
    assert(e4.len() > 0);
    let e3 = e4.drop_last();
    assert(start.run(e3) == Some(LaunchState::ContextAssembled));
    assert(e3.len() > 0);
    let e2 = e3.drop_last();
    assert(start.run(e2) == Some(LaunchState::LimitsApplied));
    assert(e2.len() > 0);
    let e1 = e2.drop_last();
    assert(start.run(e1) == Some(LaunchState::NamespaceResolved));
    assert(e1.len() > 0);
    let e0 = e1.drop_last();
    assert(start.run(e0) == Some(LaunchState::Requested));
    if e0.len() > 0 {
        lemma_requested_is_never_reentered(e0);
    }
    assert(events =~= seq![
        LaunchEvent::NamespaceReady,
        LaunchEvent::LimitsReady,
        LaunchEvent::ContextReady,
        LaunchEvent::Started,
    ]);
}

/// No event leads back to the state *requested*.
pub proof fn lemma_requested_is_never_reentered(events: Seq<LaunchEvent>)
    requires
        events.len() > 0,
    ensures
        LaunchState::Requested.run(events) != Some(LaunchState::Requested),
{
}

/// A stopped or failed launch takes no further event: a container is
/// stopped at most once.
pub proof fn lemma_end_states_are_final(state: LaunchState, event: LaunchEvent)
    requires
        state is Stopped || state is Failed,
    ensures
        state.spec_advance(event) is None,
{
}

/// Why a launch failed.
#[derive(Debug, PartialEq, Eq)]
pub enum LaunchFailure {
    /// The setup of one kind of namespace failed; the text is what the unit
    /// reported.
    NamespaceSetup { kind: NamespaceKind, message: String },
    /// The bring-up did not report on exactly the enabled kinds.
    IncompleteBringUp,
    /// No namespace identifier is left.
    IdsExhausted,
    /// The resource limits could not be applied.
    Limits(LimitError),
    /// The container is not running, so it cannot be stopped.
    NotRunning,
}

/// A failed launch: which container was being started, and why it failed.
#[derive(Debug, PartialEq, Eq)]
pub struct LaunchError {
    pub container_id: String,
    pub failure: LaunchFailure,
}

/// What a runtime holds that its decisions depend on.
pub struct RuntimeModel {
    pub config: FastStartConfig,
    /// How long a cached namespace stays valid, in milliseconds.
    pub validity_ms: u64,
    pub isolation: IsolationConfig,
    /// The cached namespaces, a stack: the last one is taken first.
    pub cache: Seq<CachedNamespace>,
    /// The identifier that the next fresh namespace gets.
    pub next_id: u64,
    pub metrics: PerfMetrics,
}

impl RuntimeModel {
    /// The kinds of namespace that a fresh bring-up sets up: always the user
    /// namespace, and the others as the isolation asks for them.
    pub open spec fn setup_config(self) -> NamespaceSetupConfig {
        NamespaceSetupConfig {
            user: true,
            network: self.isolation.isolate_network,
            mount: self.isolation.isolate_mount,
            pid: self.isolation.isolate_pid,
        }
    }

    /// Whether a launch at the time `now_ms` reuses a cached namespace:
    /// caching is on, and the namespace on top of the stack is still valid.
    pub open spec fn reuses(self, now_ms: u64) -> bool {
        self.config.use_namespace_cache && self.cache.len() > 0 && self.cache.last().valid_within(
            now_ms,
            self.validity_ms,
        )
    }

    /// The runtime after a launch has asked the cache for a namespace, and
    /// the identifier it got. The namespace on top of the stack leaves the
    /// cache in any case: it is handed out if it is still valid, and a hit
    /// is counted; it is discarded if it is not.
    pub open spec fn take_cached(self, now_ms: u64) -> (RuntimeModel, Option<u64>) {
        if self.cache.len() == 0 {
            (self, None)
        } else if self.cache.last().valid_within(now_ms, self.validity_ms) {
            (
                RuntimeModel {
                    cache: self.cache.drop_last(),
                    metrics: PerfMetrics {
                        namespace_cache_hits: self.metrics.namespace_cache_hits.wrapping_add(1),
                        ..self.metrics
                    },
                    ..self
                },
                Some(self.cache.last().id),
            )
        } else {
            (RuntimeModel { cache: self.cache.drop_last(), ..self }, None)
        }
    }

    /// Whether the cache takes a namespace of the identifier `id`: caching
    /// is on, there is room, and the identifier is one that this runtime
    /// has given out.
    pub open spec fn takes(self, id: u64) -> bool {
        &&& self.config.use_namespace_cache
        &&& self.cache.len() < self.config.max_cached_namespaces
        &&& id < self.next_id
    }

    /// The cache after `entry` was offered to it: the entry is put on top
    /// where the cache takes it, and dropped otherwise. No entry ever leaves
    /// the cache to make room.
    pub open spec fn offered(self, entry: CachedNamespace) -> Seq<CachedNamespace> {
        if self.takes(entry.id) {
            self.cache.push(entry)
        } else {
            self.cache
        }
    }

    /// Every cached namespace carries an identifier that this runtime has
    /// given out: one below the identifier of the next fresh namespace.
    /// Every runtime that this library hands out is so, and every operation
    /// keeps it so.
    pub open spec fn issued(self) -> bool {
        forall|i: int| 0 <= i < self.cache.len() ==> (#[trigger] self.cache[i]).id < self.next_id
    }

    /// Whether `failure` is what the results of a bring-up that is not
    /// accepted come to: an incomplete bring-up where the results do not
    /// report on exactly the kinds to set up, else the kind and the message
    /// of the first result that failed, else the lack of an identifier.
    pub open spec fn refusal(self, results: Seq<SetupResult>, failure: LaunchFailure) -> bool {
        if !covers(self.setup_config().enabled_kinds(), results) {
            failure == LaunchFailure::IncompleteBringUp
        } else if !all_succeeded(results) {
            exists|i: int|
                {
                    &&& #[trigger] first_failure_at(results, i)
                    &&& failure matches LaunchFailure::NamespaceSetup { kind, message }
                    &&& kind == results[i].kind
                    &&& message@ == results[i].message@
                }
        } else {
            failure == LaunchFailure::IdsExhausted
        }
    }

    /// Whether a fresh namespace with these results of its bring-up is taken
    /// into service: the results report on exactly the kinds to set up,
    /// every one of them succeeded, and an identifier is left.
    pub open spec fn accepts(self, results: Seq<SetupResult>) -> bool {
        &&& covers(self.setup_config().enabled_kinds(), results)
        &&& all_succeeded(results)
        &&& self.next_id < u64::MAX
    }

    /// The cache holds no more entries than the configuration allows.
    pub open spec fn bounded(self) -> bool {
        self.cache.len() <= self.config.max_cached_namespaces
    }
}

/// Whether the results report on exactly the planned kinds, in their order.
pub open spec fn covers(plan: Seq<NamespaceKind>, results: Seq<SetupResult>) -> bool {
    &&& results.len() == plan.len()
    &&& forall|i: int| 0 <= i < plan.len() ==> (#[trigger] results[i]).kind == plan[i]
}

/// Whether the result at position `i` is the first failure.
pub open spec fn first_failure_at(results: Seq<SetupResult>, i: int) -> bool {
    &&& 0 <= i < results.len()
    &&& !results[i].success
    &&& forall|j: int| 0 <= j < i ==> (#[trigger] results[j]).success
}

/// Whether every result is a success.
pub open spec fn all_succeeded(results: Seq<SetupResult>) -> bool {
    forall|i: int| 0 <= i < results.len() ==> (#[trigger] results[i]).success
}

/// Handle of a container: its identifier, the identifier of its namespace,
/// and whether it is running or stopped.
#[derive(Debug)]
pub struct ContainerHandle {
    id: String,
    namespace_id: u64,
    state: LaunchState,
}

/// The startup coordinator and what it owns: the cache of namespaces, the
/// counter that names fresh namespaces, and the performance counters.
pub struct FastRuntime {
    config: FastStartConfig,
    isolation: Isolation,
    limits: OptimizedResourceLimits,
    metrics: PerfMetrics,
    namespace_cache: Vec<CachedNamespace>,
    validity_ms: u64,
    next_namespace_id: u64,
}

impl View for FastRuntime {
    type V = RuntimeModel;

    closed spec fn view(&self) -> RuntimeModel {
        RuntimeModel {
            config: self.config,
            validity_ms: self.validity_ms,
            isolation: self.isolation.spec_config(),
            cache: self.namespace_cache@,
            next_id: self.next_namespace_id,
            metrics: self.metrics,
        }
    }
}

impl FastRuntime {
    /// The limits that every launch applies.
    pub closed spec fn spec_limits(&self) -> OptimizedResourceLimits {
        self.limits
    }

    /// A runtime with the default configuration.
    pub fn new() -> (runtime: Self)
        ensures
            runtime@.config.use_namespace_cache,
            runtime@.config.parallel_namespaces,
            runtime@.config.max_cached_namespaces == 10,
            runtime@.cache.len() == 0,
            runtime@.validity_ms == NAMESPACE_VALIDITY_MS,
            runtime@.next_id == 1,
            runtime@.metrics == PerfMetrics::zero(),
            runtime@.bounded(),
            runtime@.issued(),
            runtime@.setup_config() == (NamespaceSetupConfig {
                user: true,
                network: true,
                mount: true,
                pid: true,
            }),
    {
        Self::with_config(FastStartConfig::default())
    }

    /// A runtime with the given configuration. It isolates as the defaults
    /// of the isolation manager say, applies the limits of the standard
    /// profile, has nothing cached and has counted nothing; the first fresh
    /// namespace gets the identifier 1.
    pub fn with_config(config: FastStartConfig) -> (runtime: Self)
        ensures
            runtime@.config == config,
            runtime@.cache.len() == 0,
            runtime@.validity_ms == NAMESPACE_VALIDITY_MS,
            runtime@.next_id == 1,
            runtime@.metrics == PerfMetrics::zero(),
            runtime@.bounded(),
            runtime@.issued(),
            runtime@.setup_config() == (NamespaceSetupConfig {
                user: true,
                network: true,
                mount: true,
                pid: true,
            }),
            runtime.spec_limits().spec_profile() == ResourceProfile::Standard,
            runtime.spec_limits().spec_overrides().len() == 0,
    {
        Self {
            config,
            isolation: Isolation::with_defaults(),
            limits: OptimizedResourceLimits::from_profile(ResourceProfile::Standard),
            metrics: PerfMetrics::new(),
            namespace_cache: Vec::new(),
            validity_ms: NAMESPACE_VALIDITY_MS,
            next_namespace_id: 1,
        }
    }

    /// A runtime with the given configuration whose first fresh namespace
    /// gets the identifier `first_id`. In everything else it is the runtime
    /// of [`with_config`](Self::with_config).
    pub fn with_first_id(config: FastStartConfig, first_id: u64) -> (runtime: Self)
        ensures
            runtime@.config == config,
            runtime@.cache.len() == 0,
            runtime@.validity_ms == NAMESPACE_VALIDITY_MS,
            runtime@.next_id == first_id,
            runtime@.metrics == PerfMetrics::zero(),
            runtime@.bounded(),
            runtime@.issued(),
            runtime@.setup_config() == (NamespaceSetupConfig {
                user: true,
                network: true,
                mount: true,
                pid: true,
            }),
            runtime.spec_limits().spec_profile() == ResourceProfile::Standard,
            runtime.spec_limits().spec_overrides().len() == 0,
    {
        let mut runtime = Self::with_config(config);
        runtime.next_namespace_id = first_id;
        runtime
    }

    /// A runtime with the given configuration that isolates as the template
    /// says. The template becomes the configuration of the isolation
    /// manager, field by field.
    pub fn with_template(config: FastStartConfig, template: &NamespaceTemplate) -> (runtime: Self)
        ensures
            runtime@.config == config,
            runtime@.cache.len() == 0,
            runtime@.validity_ms == NAMESPACE_VALIDITY_MS,
            runtime@.next_id == 1,
            runtime@.metrics == PerfMetrics::zero(),
            runtime@.bounded(),
            runtime@.issued(),
            runtime@.isolation == (IsolationConfig {
                host_uid: template.host_uid,
                host_gid: template.host_gid,
                uid_range: template.uid_range,
                gid_range: template.gid_range,
                isolate_network: template.isolate_network,
                isolate_mount: template.isolate_mount,
                isolate_pid: template.isolate_pid,
            }),
            runtime.spec_limits().spec_profile() == ResourceProfile::Standard,
            runtime.spec_limits().spec_overrides().len() == 0,
    {
        Self {
            config,
            isolation: Isolation::new(IsolationConfig::from_template(template)),
            limits: OptimizedResourceLimits::from_profile(ResourceProfile::Standard),
            metrics: PerfMetrics::new(),
            namespace_cache: Vec::new(),
            validity_ms: NAMESPACE_VALIDITY_MS,
            next_namespace_id: 1,
        }
    }

    /// The isolation manager of the runtime.
    pub fn isolation(&self) -> (isolation: &Isolation)
        ensures
            isolation.spec_config() == self@.isolation,
    {
        &self.isolation
    }

    /// Sets how long a cached namespace stays valid, in milliseconds. With a
    /// window of 0 no cached namespace is ever reused.
    pub fn set_validity_window(&mut self, window_ms: u64)
        ensures
            final(self)@ == (RuntimeModel { validity_ms: window_ms, ..old(self)@ }),
            final(self).spec_limits() == old(self).spec_limits(),
    {
        self.validity_ms = window_ms;
    }

    /// Replaces the limits that every launch applies.
    pub fn set_limits(&mut self, limits: OptimizedResourceLimits)
        ensures
            final(self)@ == old(self)@,
            final(self).spec_limits() == limits,
    {
        self.limits = limits;
    }

    /// The configuration of the runtime.
    pub fn config(&self) -> (config: &FastStartConfig)
        ensures
            *config == self@.config,
    {
        &self.config
    }

    /// The performance counters as they are now.
    pub fn metrics(&self) -> (metrics: PerfMetrics)
        ensures
            metrics == self@.metrics,
    {
        self.metrics
    }

    /// Number of namespaces in the cache.
    pub fn cached_namespaces(&self) -> (count: usize)
        ensures
            count == self@.cache.len(),
    {
        self.namespace_cache.len()
    }

    /// The kinds of namespace that a fresh bring-up sets up.
    pub fn setup_config(&self) -> (config: NamespaceSetupConfig)
        ensures
            config == self@.setup_config(),
    {
        let isolation = self.isolation.config();
        NamespaceSetupConfig {
            user: true,
            network: isolation.isolate_network,
            mount: isolation.isolate_mount,
            pid: isolation.isolate_pid,
        }
    }

    /// Whether a launch at the time `now_ms` reuses a cached namespace, and
    /// so needs no bring-up.
    pub fn would_reuse(&self, now_ms: u64) -> (reuses: bool)
        ensures
            reuses == self@.reuses(now_ms),
    {
        let count = self.namespace_cache.len();
        self.config.use_namespace_cache && count > 0 && self.namespace_cache[count - 1].is_valid_within(
            now_ms,
            self.validity_ms,
        )
    }

    /// Takes the namespace on top of the stack out of the cache and hands
    /// it over, valid or not. A valid one counts as a hit.
    fn pop_cached(&mut self, now_ms: u64) -> (taken: Option<CachedNamespace>)
        ensures
            final(self)@ == old(self)@.take_cached(now_ms).0,
            final(self).spec_limits() == old(self).spec_limits(),
            taken == (if old(self)@.cache.len() > 0 {
                Some(old(self)@.cache.last())
            } else {
                None
            }),
            old(self)@.issued() ==> final(self)@.issued(),
            old(self)@.bounded() ==> final(self)@.bounded(),
    {
        match self.namespace_cache.pop() {
            Some(cached) => {
                if cached.is_valid_within(now_ms, self.validity_ms) {
                    self.metrics.record_namespace_cache_hit();
                }
                proof {
                    if old(self)@.issued() {
                        assert forall|i: int| 0 <= i < self@.cache.len() implies (
                        #[trigger] self@.cache[i]).id < self@.next_id by {
                            assert(old(self)@.cache[i].id < old(self)@.next_id);
                        }
                    }
                }
                Some(cached)
            },
            None => {
                assert(self.namespace_cache@ =~= old(self).namespace_cache@);
                None
            },
        }
    }

    /// Asks the cache for a namespace at the time `now_ms`. The namespace on
    /// top of the stack leaves the cache: it is handed out if it is younger
    /// than the validity window, and discarded if it is not.
    pub fn get_cached_namespace(&mut self, now_ms: u64) -> (reused: Option<u64>)
        ensures
            (final(self)@, reused) == old(self)@.take_cached(now_ms),
            final(self).spec_limits() == old(self).spec_limits(),
            old(self)@.issued() ==> final(self)@.issued(),
            old(self)@.bounded() ==> final(self)@.bounded(),
    {
        match self.pop_cached(now_ms) {
            Some(cached) => {
                if cached.is_valid_within(now_ms, self.validity_ms) {
                    Some(cached.id)
                } else {
                    None
                }
            },
            None => None,
        }
    }

    /// The identifier of the next fresh namespace. Identifiers start at 1
    /// and go up by one; there is none left once the counter has reached
    /// its end.
    pub fn generate_namespace_id(&mut self) -> (id: Option<u64>)
        ensures
            old(self)@.next_id < u64::MAX ==> id == Some(old(self)@.next_id) && final(self)@ == (
            RuntimeModel { next_id: (old(self)@.next_id + 1) as u64, ..old(self)@ }),
            old(self)@.next_id == u64::MAX ==> id is None && final(self)@ == old(self)@,
            final(self).spec_limits() == old(self).spec_limits(),
            old(self)@.issued() ==> final(self)@.issued(),
    {
        if self.next_namespace_id < u64::MAX {
            let id = self.next_namespace_id;
            self.next_namespace_id = id + 1;
            Some(id)
        } else {
            None
        }
    }

    /// Offers a namespace to the cache at the time `now_ms`: it is put on
    /// top where caching is on, there is room, and its identifier is one
    /// that this runtime has given out. Otherwise it is dropped.
    pub fn offer_to_cache(&mut self, id: u64, now_ms: u64) -> (kept: bool)
        ensures
            kept == old(self)@.takes(id),
            final(self)@ == (RuntimeModel {
                cache: old(self)@.offered(CachedNamespace { id, created_at_ms: now_ms }),
                ..old(self)@
            }),
            old(self)@.bounded() ==> final(self)@.bounded(),
            old(self)@.issued() ==> final(self)@.issued(),
            final(self).spec_limits() == old(self).spec_limits(),
    {
        if self.config.use_namespace_cache && self.namespace_cache.len()
            < self.config.max_cached_namespaces && id < self.next_namespace_id {
            self.namespace_cache.push(CachedNamespace { id, created_at_ms: now_ms });
            true
        } else {
            assert(self.namespace_cache@ =~= old(self).namespace_cache@);
            false
        }
    }

    /// Judges the report of a bring-up. It passes if it reports on exactly
    /// the planned kinds and every one of them succeeded; otherwise the
    /// first kind that failed is named.
    pub fn judge_bring_up(plan: &Vec<NamespaceKind>, report: &ParallelSetupReport) -> (verdict: Result<
        (),
        LaunchFailure,
    >)
        ensures
            verdict is Ok == (covers(plan@, report.results@) && all_succeeded(report.results@)),
            !covers(plan@, report.results@) ==> verdict == Err::<(), LaunchFailure>(
                LaunchFailure::IncompleteBringUp,
            ),
            covers(plan@, report.results@) ==> forall|i: int|
                first_failure_at(report.results@, i) ==> (verdict matches Err(
                    LaunchFailure::NamespaceSetup { kind, message },
                ) && kind == report.results@[i].kind && message@ == report.results@[i].message@),
    {
        if report.results.len() != plan.len() {
            return Err(LaunchFailure::IncompleteBringUp);
        }
        let mut i: usize = 0;
        while i < plan.len()
            invariant
                i <= plan.len(),
                report.results@.len() == plan@.len(),
                forall|j: int| 0 <= j < i ==> (#[trigger] report.results@[j]).kind == plan@[j],
            decreases plan.len() - i,
        {
            if report.results[i].kind != plan[i] {
                return Err(LaunchFailure::IncompleteBringUp);
            }
            i += 1;
        }
        let mut k: usize = 0;
        while k < report.results.len()
            invariant
                k <= report.results.len(),
                covers(plan@, report.results@),
                forall|j: int| 0 <= j < k ==> (#[trigger] report.results@[j]).success,
            decreases report.results.len() - k,
        {
            if !report.results[k].success {
                let failed = &report.results[k];
                assert(first_failure_at(report.results@, k as int));
                assert forall|i: int| first_failure_at(report.results@, i) implies i == k by {
                    if i < k {
                        assert(report.results@[i].success);
                    } else if i > k {
                        assert(report.results@[k as int].success);
                    }
                }
                return Err(
                    LaunchFailure::NamespaceSetup { kind: failed.kind, message: failed.message.clone() },
                );
            }
            k += 1;
        }
        assert forall|i: int| first_failure_at(report.results@, i) implies false by {
            assert(report.results@[i].success);
        }
        Ok(())
    }

    /// Brings the namespaces up one after the other: one unit per enabled
    /// kind, in the order user, network, mount, PID. The units are
    /// simulated and succeed.
    pub fn bring_up_sequential(&self) -> (report: ParallelSetupReport)
        ensures
            covers(self@.setup_config().enabled_kinds(), report.results@),
            all_succeeded(report.results@),
    {
        let start = now();
        let config = self.setup_config();
        let setup = ParallelNamespaceSetup::new(config);
        let user = if config.user {
            Some(setup.setup_namespace(NamespaceKind::User))
        } else {
            None
        };
        let network = if config.network {
            Some(setup.setup_namespace(NamespaceKind::Network))
        } else {
            None
        };
        let mount = if config.mount {
            Some(setup.setup_namespace(NamespaceKind::Mount))
        } else {
            None
        };
        let pid = if config.pid {
            Some(setup.setup_namespace(NamespaceKind::Pid))
        } else {
            None
        };
        let report = ParallelSetupReport::collect(user, network, mount, pid, elapsed_since(&start));
        proof {
            let kinds = config.enabled_kinds();
            assert(report.results@.len() == kinds.len());
            assert forall|i: int| 0 <= i < kinds.len() implies (#[trigger] report.results@[i]).kind
                == kinds[i] && report.results@[i].success by {}
        }
        report
    }

    /// Takes a fresh namespace into service after its bring-up, at the time
    /// `now_ms`. The bring-up is counted with the `nanos` nanoseconds it
    /// took, whatever its report says.
    ///
    /// Where the report passes ([`judge_bring_up`](Self::judge_bring_up))
    /// and an identifier is left, the namespace gets the next identifier,
    /// which no cached namespace carries, and is offered to the cache.
    /// Otherwise the launch has failed: the failure names the first kind
    /// that failed with what its unit reported, and cache and identifiers
    /// stay as they are.
    pub fn create_namespace_fast(&mut self, report: &ParallelSetupReport, now_ms: u64, nanos: u64) -> (outcome:
        Result<u64, LaunchFailure>)
        ensures
            final(self)@.config == old(self)@.config,
            final(self)@.validity_ms == old(self)@.validity_ms,
            final(self)@.isolation == old(self)@.isolation,
            final(self).spec_limits() == old(self).spec_limits(),
            final(self)@.metrics == old(self)@.metrics.recorded(TimerType::NamespaceCreate, nanos),
            outcome is Ok == old(self)@.accepts(report.results@),
            outcome matches Ok(id) ==> {
                &&& id == old(self)@.next_id
                &&& final(self)@.next_id == id + 1
                &&& final(self)@.cache == (RuntimeModel {
                    next_id: (id + 1) as u64,
                    ..old(self)@
                }).offered(CachedNamespace { id, created_at_ms: now_ms })
            },
            outcome matches Ok(id) ==> (old(self)@.issued() ==> forall|i: int|
                0 <= i < old(self)@.cache.len() ==> (#[trigger] old(self)@.cache[i]).id != id),
            outcome matches Err(failure) ==> {
                &&& final(self)@.next_id == old(self)@.next_id
                &&& final(self)@.cache == old(self)@.cache
                &&& old(self)@.refusal(report.results@, failure)
            },
            old(self)@.bounded() ==> final(self)@.bounded(),
            old(self)@.issued() ==> final(self)@.issued(),
    {
        self.metrics.record_namespace_create(nanos);
        let plan = ParallelNamespaceSetup::new(self.setup_config()).plan();
        match Self::judge_bring_up(&plan, report) {
            Err(failure) => {
                proof {
                    if covers(plan@, report.results@) {
                        lemma_some_failure_is_first(report.results@);
                        let i = choose|i: int| first_failure_at(report.results@, i);
                        assert(first_failure_at(report.results@, i));
                    }
                }
                Err(failure)
            },
            Ok(_) => {
                match self.generate_namespace_id() {
                    None => Err(LaunchFailure::IdsExhausted),
                    Some(id) => {
                        self.offer_to_cache(id, now_ms);
                        Ok(id)
                    },
                }
            },
        }
    }

    /// The execution context of a container: no environment, the root
    /// directory as working directory, one core, 512 MiB of memory and 100
    /// processes, and an isolated network with one DNS server.
    pub fn assemble_context(container_id: &str) -> (context: ExecutionContext)
        ensures
            context.container_id@ == container_id@,
            context.env@ == Map::<String, String>::empty(),
            context.workdir@ == "/"@,
            context.limits == (ResourceLimits {
                cpu_millicores: 1000,
                memory_bytes: (512 * MIB) as u64,
                pid_limit: 100,
            }),
            context.network.isolated,
            context.network.ip_address is None,
            context.network.dns_servers@.len() == 1,
            context.network.dns_servers@[0]@ == "8.8.8.8"@,
    {
        let mut dns_servers: Vec<String> = Vec::new();
        dns_servers.push(String::from_str("8.8.8.8"));
        ExecutionContext {
            container_id: String::from_str(container_id),
            env: HashMap::new(),
            workdir: String::from_str("/"),
            limits: ResourceLimits { cpu_millicores: 1000, memory_bytes: 512 * MIB, pid_limit: 100 },
            network: NetworkConfig { isolated: true, ip_address: None, dns_servers },
        }
    }

    /// Whether the session is one that a launch of this runtime opens to
    /// apply its limits: nothing is written yet, and the writes are those of
    /// the effective limits of the runtime.
    pub open spec fn opens(&self, session: ApplySession) -> bool {
        &&& session.well_formed()
        &&& lists_exactly(session@.writes, self.spec_limits().spec_current_limits())
        &&& session@.done == 0
        &&& !session@.refused
    }

    /// Starts a container at the time `now_ms`, with the limits applied by
    /// the library itself, which accepts every write.
    ///
    /// With caching on, the namespace on top of the cache is taken if it is
    /// still valid; the launch then cannot fail. In every other case the
    /// namespaces are brought up fresh: by `bring_up`, which is handed the
    /// kinds to set up, where the runtime is configured for parallel
    /// bring-up, and one after the other by the runtime itself where it is
    /// not. What follows from the report of the bring-up is stated by
    /// [`create_namespace_fast`](Self::create_namespace_fast). Then the
    /// limits of the runtime are applied and the execution context is
    /// assembled.
    ///
    /// A successful start is counted exactly when a handle is returned; the
    /// handle is that of a running container of the given identifier.
    pub fn start_container<F>(
        &mut self,
        container_id: &str,
        image: &str,
        command: &str,
        args: Vec<String>,
        now_ms: u64,
        bring_up: F,
    ) -> (outcome: Result<ContainerHandle, LaunchError>) where
        F: FnOnce(NamespaceSetupConfig) -> ParallelSetupReport,

        requires
            !old(self)@.reuses(now_ms) && old(self)@.config.parallel_namespaces ==> bring_up.requires(
                (old(self)@.setup_config(),),
            ),
        ensures
            final(self)@.config == old(self)@.config,
            final(self)@.validity_ms == old(self)@.validity_ms,
            final(self)@.isolation == old(self)@.isolation,
            final(self).spec_limits() == old(self).spec_limits(),
            old(self)@.bounded() ==> final(self)@.bounded(),
            old(self)@.issued() ==> final(self)@.issued(),
            old(self)@.reuses(now_ms) ==> {
                &&& outcome is Ok
                &&& final(self)@.metrics.namespace_cache_hits
                    == old(self)@.metrics.namespace_cache_hits.wrapping_add(1)
                &&& final(self)@.metrics.namespace_creates == old(self)@.metrics.namespace_creates
            },
            !old(self)@.reuses(now_ms) ==> {
                &&& final(self)@.metrics.namespace_cache_hits == old(self)@.metrics.namespace_cache_hits
                &&& final(self)@.metrics.namespace_creates
                    == old(self)@.metrics.namespace_creates.wrapping_add(1)
                &&& !old(self)@.config.parallel_namespaces ==> {
                    &&& (outcome is Ok) == (old(self)@.next_id < u64::MAX)
                    &&& outcome matches Err(error) ==> error.failure == LaunchFailure::IdsExhausted
                }
                &&& old(self)@.config.parallel_namespaces ==> exists|report: ParallelSetupReport|
                    {
                        &&& #[trigger] bring_up.ensures((old(self)@.setup_config(),), report)
                        &&& (outcome is Ok) == old(self)@.accepts(report.results@)
                        &&& outcome matches Err(error) ==> old(self)@.refusal(
                            report.results@,
                            error.failure,
                        )
                    }
            },
            outcome matches Ok(handle) ==> {
                &&& handle.spec_id() == container_id@
                &&& handle.spec_state() == LaunchState::Running
                &&& final(self)@.metrics.container_starts
                    == old(self)@.metrics.container_starts.wrapping_add(1)
                &&& old(self)@.resolved(now_ms, final(self)@, handle.spec_namespace_id())
            },
            outcome matches Err(error) ==> {
                &&& error.container_id@ == container_id@
                &&& !(error.failure is NotRunning)
                &&& !(error.failure is Limits)
                &&& final(self)@.metrics.container_starts == old(self)@.metrics.container_starts
                &&& old(self)@.unresolved(now_ms, final(self)@)
            },
    {
        let accept = |session: ApplySession| -> (applied: Result<Vec<(ResourceKind, u64)>, LimitError>)
            requires
                session.well_formed(),
                !session@.refused,
            ensures
                applied is Ok,
            { session.accept_all() };
        self.start_container_with(container_id, image, command, args, now_ms, bring_up, accept)
    }

    /// Starts a container at the time `now_ms`, with the limits applied by
    /// `apply_limits`.
    ///
    /// The namespace is resolved as [`start_container`](Self::start_container)
    /// says. Then `apply_limits` is handed a session that holds the writes of
    /// the effective limits of the runtime, and says how the application
    /// went. A refused limit is fatal to the launch: no container runs
    /// without its limits in place. What the launch did to the cache is then
    /// undone: the cache and the count of cache hits are as they were before
    /// the launch. The identifier of a namespace that was brought up fresh
    /// stays used up, and its bring-up stays counted.
    pub fn start_container_with<F, G>(
        &mut self,
        container_id: &str,
        image: &str,
        command: &str,
        args: Vec<String>,
        now_ms: u64,
        bring_up: F,
        apply_limits: G,
    ) -> (outcome: Result<ContainerHandle, LaunchError>) where
        F: FnOnce(NamespaceSetupConfig) -> ParallelSetupReport,
        G: FnOnce(ApplySession) -> Result<Vec<(ResourceKind, u64)>, LimitError>,

        requires
            !old(self)@.reuses(now_ms) && old(self)@.config.parallel_namespaces ==> bring_up.requires(
                (old(self)@.setup_config(),),
            ),
            forall|session: ApplySession| #[trigger]
                old(self).opens(session) ==> apply_limits.requires((session,)),
        ensures
            final(self)@.config == old(self)@.config,
            final(self)@.validity_ms == old(self)@.validity_ms,
            final(self)@.isolation == old(self)@.isolation,
            final(self).spec_limits() == old(self).spec_limits(),
            old(self)@.bounded() ==> final(self)@.bounded(),
            old(self)@.issued() ==> final(self)@.issued(),
            final(self)@.metrics.namespace_cache_hits == (if outcome is Ok && old(self)@.reuses(
                now_ms,
            ) {
                old(self)@.metrics.namespace_cache_hits.wrapping_add(1)
            } else {
                old(self)@.metrics.namespace_cache_hits
            }),
            final(self)@.metrics.namespace_creates == (if old(self)@.reuses(now_ms) {
                old(self)@.metrics.namespace_creates
            } else {
                old(self)@.metrics.namespace_creates.wrapping_add(1)
            }),
            old(self)@.reuses(now_ms) ==> outcome is Ok || (outcome matches Err(error)
                && error.failure is Limits),
            !old(self)@.reuses(now_ms) ==> {
                &&& !old(self)@.config.parallel_namespaces ==> {
                    &&& (outcome is Ok || (outcome matches Err(error) && error.failure is Limits)) == (
                    old(self)@.next_id < u64::MAX)
                    &&& outcome matches Err(error) ==> error.failure is Limits || error.failure
                        == LaunchFailure::IdsExhausted
                }
                &&& old(self)@.config.parallel_namespaces ==> exists|report: ParallelSetupReport|
                    {
                        &&& #[trigger] bring_up.ensures((old(self)@.setup_config(),), report)
                        &&& (outcome is Ok || (outcome matches Err(error) && error.failure is Limits))
                            == old(self)@.accepts(report.results@)
                        &&& outcome matches Err(error) ==> error.failure is Limits
                            || old(self)@.refusal(report.results@, error.failure)
                    }
            },
            outcome is Ok || (outcome matches Err(error) && error.failure is Limits) ==> exists|
                session: ApplySession,
                applied: Result<Vec<(ResourceKind, u64)>, LimitError>,
            |
                {
                    &&& old(self).opens(session)
                    &&& #[trigger] apply_limits.ensures((session,), applied)
                    &&& applied is Ok == outcome is Ok
                    &&& applied matches Err(refused) ==> (outcome matches Err(error) && error.failure
                        == LaunchFailure::Limits(refused))
                },
            outcome matches Ok(handle) ==> {
                &&& handle.spec_id() == container_id@
                &&& handle.spec_state() == LaunchState::Running
                &&& final(self)@.metrics.container_starts
                    == old(self)@.metrics.container_starts.wrapping_add(1)
                &&& old(self)@.resolved(now_ms, final(self)@, handle.spec_namespace_id())
            },
            outcome matches Err(error) ==> {
                &&& error.container_id@ == container_id@
                &&& !(error.failure is NotRunning)
                &&& final(self)@.metrics.container_starts == old(self)@.metrics.container_starts
                &&& error.failure is Limits ==> old(self)@.unwound(now_ms, final(self)@)
                &&& !(error.failure is Limits) ==> old(self)@.unresolved(now_ms, final(self)@)
            },
    {
        let timer = now();
        let state = LaunchState::Requested;
        let hits_before = self.metrics.namespace_cache_hits;
        let taken = if self.config.use_namespace_cache {
            self.pop_cached(now_ms)
        } else {
            None
        };
        let reused = match taken {
            Some(cached) => {
                if cached.is_valid_within(now_ms, self.validity_ms) {
                    Some(cached.id)
                } else {
                    None
                }
            },
            None => None,
        };
        let cached_before = self.namespace_cache.len();
        let resolved = match reused {
            Some(id) => Ok(id),
            None => {
                let bring_up_timer = now();
                let report = if self.config.parallel_namespaces {
                    bring_up(self.setup_config())
                } else {
                    self.bring_up_sequential()
                };
                assert(self.config.parallel_namespaces ==> bring_up.ensures(
                    (old(self)@.setup_config(),),
                    report,
                ));
                self.create_namespace_fast(&report, now_ms, nanos_of(&elapsed_since(&bring_up_timer)))
            },
        };
        let namespace_id = match resolved {
            Ok(id) => id,
            Err(failure) => {
                let state = state.advance(LaunchEvent::NamespaceFailed).unwrap();
                return Err(LaunchError { container_id: String::from_str(container_id), failure });
            },
        };
        assert(old(self)@.resolved(now_ms, self@, namespace_id));
        let state = state.advance(LaunchEvent::NamespaceReady).unwrap();
        let session = self.limits.begin_apply();
        assert(old(self).opens(session));
        let applied = apply_limits(session);
        assert(apply_limits.ensures((session,), applied));
        match applied {
            Ok(_) => {},
            Err(refused) => {
                let state = state.advance(LaunchEvent::LimitsFailed).unwrap();
                if self.namespace_cache.len() > cached_before {
                    self.namespace_cache.pop();
                }
                match taken {
                    Some(cached) => {
                        self.namespace_cache.push(cached);
                    },
                    None => {},
                }
                self.metrics.namespace_cache_hits = hits_before;
                proof {
                    assert(self@.cache =~= old(self)@.cache);
                }
                return Err(
                    LaunchError {
                        container_id: String::from_str(container_id),
                        failure: LaunchFailure::Limits(refused),
                    },
                );
            },
        }
        let state = state.advance(LaunchEvent::LimitsReady).unwrap();
        let context = Self::assemble_context(container_id);
        let state = state.advance(LaunchEvent::ContextReady).unwrap();
        let handle = ContainerHandle {
            id: context.container_id,
            namespace_id,
            state: state.advance(LaunchEvent::Started).unwrap(),
        };
        self.metrics.record_container_start(nanos_of(&elapsed_since(&timer)));
        Ok(handle)
    }
}

impl RuntimeModel {
    /// The cache after a launch at the time `now_ms` has asked it for a
    /// namespace, or the cache as it is where caching is off.
    pub open spec fn take_cached_or_keep(self, now_ms: u64) -> Seq<CachedNamespace> {
        if self.config.use_namespace_cache {
            self.take_cached(now_ms).0.cache
        } else {
            self.cache
        }
    }

    /// Whether `after` holds the cache and the counter of identifiers of a
    /// runtime in which a launch at the time `now_ms` has resolved the
    /// namespace `id`: the namespace on top of the cache, which left the
    /// cache, where the launch reuses one, and otherwise a fresh namespace
    /// with the next identifier, which was offered to the cache.
    pub open spec fn resolved(self, now_ms: u64, after: RuntimeModel, id: u64) -> bool {
        if self.reuses(now_ms) {
            &&& id == self.cache.last().id
            &&& after.cache == self.cache.drop_last()
            &&& after.next_id == self.next_id
        } else {
            &&& id == self.next_id
            &&& after.next_id == self.next_id + 1
            &&& after.cache == (RuntimeModel {
                cache: self.take_cached_or_keep(now_ms),
                next_id: (id + 1) as u64,
                ..self
            }).offered(CachedNamespace { id, created_at_ms: now_ms })
        }
    }

    /// Whether `after` holds the cache and the counter of identifiers of a
    /// runtime in which a launch at the time `now_ms` has resolved its
    /// namespace and then failed on its limits: the cache is as it was
    /// before the launch, and the identifier of a fresh namespace stays used
    /// up.
    pub open spec fn unwound(self, now_ms: u64, after: RuntimeModel) -> bool {
        &&& after.cache == self.cache
        &&& after.next_id == (if self.reuses(now_ms) {
            self.next_id as int
        } else {
            self.next_id + 1
        })
    }

    /// Whether `after` holds the cache and the counter of identifiers of a
    /// runtime in which a launch at the time `now_ms` has failed to bring a
    /// fresh namespace up: no identifier is used up, and the cache has lost
    /// at most the expired namespace that was on top of it.
    pub open spec fn unresolved(self, now_ms: u64, after: RuntimeModel) -> bool {
        &&& !self.reuses(now_ms)
        &&& after.next_id == self.next_id
        &&& after.cache == self.take_cached_or_keep(now_ms)
    }
}

/// The identifier of a fresh namespace is new: on a runtime whose cached
/// identifiers were all given out by it, no cached namespace carries the
/// identifier that the next fresh namespace gets. A stale namespace that a
/// launch discards is among them, so the fresh namespace that is brought up
/// in its place never carries its identifier.
pub proof fn lemma_fresh_identifier_is_new(runtime: RuntimeModel, now_ms: u64)
    requires
        runtime.issued(),
    ensures
        forall|i: int| 0 <= i < runtime.cache.len() ==> (#[trigger] runtime.cache[i]).id != runtime.next_id,
        runtime.take_cached(now_ms).0.issued(),
        runtime.take_cached(now_ms).0.next_id == runtime.next_id,
        runtime.cache.len() > 0 ==> runtime.cache.last().id != runtime.next_id,
        forall|after: RuntimeModel, id: u64|
            !runtime.reuses(now_ms) && #[trigger] runtime.resolved(now_ms, after, id) ==> forall|i: int|
                0 <= i < runtime.cache.len() ==> (#[trigger] runtime.cache[i]).id != id,
{
    let taken = runtime.take_cached(now_ms).0;
    assert forall|i: int| 0 <= i < taken.cache.len() implies (#[trigger] taken.cache[i]).id
        < taken.next_id by {
        assert(runtime.cache[i].id < runtime.next_id);
    }
    if runtime.cache.len() > 0 {
        assert(runtime.cache[runtime.cache.len() - 1].id < runtime.next_id);
    }
}

/// The namespace of a launch is one that the cache takes back: on a runtime
/// whose cached identifiers were all given out by it, the identifier that a
/// launch resolves is below the identifier of the next fresh namespace.
pub proof fn lemma_resolved_identifier_was_issued(
    before: RuntimeModel,
    now_ms: u64,
    started: RuntimeModel,
    id: u64,
)
    requires
        before.issued(),
        before.resolved(now_ms, started, id),
    ensures
        id < started.next_id,
{
    if before.reuses(now_ms) {
        assert(before.cache[before.cache.len() - 1].id < before.next_id);
    }
}

/// Reuse after stop: where the cache takes the namespace of a container
/// that is stopped at the time `stop_ms`, a launch at a time `again_ms`
/// within the validity window of that moment reuses this namespace, and no
/// other; the cache and the identifiers are then as they were before the
/// stop.
pub proof fn lemma_stopped_namespace_is_reused(
    started: RuntimeModel,
    id: u64,
    stop_ms: u64,
    stopped: RuntimeModel,
    again_ms: u64,
    after: RuntimeModel,
    again_id: u64,
)
    requires
        started.takes(id),
        stopped.config == started.config,
        stopped.validity_ms == started.validity_ms,
        stopped.next_id == started.next_id,
        stopped.cache == started.offered(CachedNamespace { id, created_at_ms: stop_ms }),
        (CachedNamespace { id, created_at_ms: stop_ms }).valid_within(again_ms, started.validity_ms),
        stopped.resolved(again_ms, after, again_id),
    ensures
        stopped.reuses(again_ms),
        again_id == id,
        after.cache == started.cache,
        after.next_id == started.next_id,
{
    let entry = CachedNamespace { id, created_at_ms: stop_ms };
    assert(stopped.cache.last() == entry);
    assert(stopped.cache.drop_last() =~= started.cache);
}

/// Reuse after stop on a new runtime: with caching on and room for two
/// namespaces or more, the first launch on an empty cache brings a
/// namespace up, the stop of its container puts that namespace on top of
/// the cache, and a second launch within the validity window of the stop
/// carries the identifier of the first.
pub proof fn lemma_second_launch_reuses_the_first(
    fresh: RuntimeModel,
    start_ms: u64,
    started: RuntimeModel,
    id: u64,
    stop_ms: u64,
    stopped: RuntimeModel,
    again_ms: u64,
    after: RuntimeModel,
    again_id: u64,
)
    requires
        fresh.config.use_namespace_cache,
        fresh.config.max_cached_namespaces >= 2,
        fresh.cache.len() == 0,
        fresh.resolved(start_ms, started, id),
        started.config == fresh.config,
        started.validity_ms == fresh.validity_ms,
        stopped.config == started.config,
        stopped.validity_ms == started.validity_ms,
        stopped.next_id == started.next_id,
        stopped.cache == started.offered(CachedNamespace { id, created_at_ms: stop_ms }),
        (CachedNamespace { id, created_at_ms: stop_ms }).valid_within(again_ms, fresh.validity_ms),
        stopped.resolved(again_ms, after, again_id),
    ensures
        stopped.reuses(again_ms),
        again_id == id,
{
    lemma_resolved_identifier_was_issued(fresh, start_ms, started, id);
    lemma_stopped_namespace_is_reused(started, id, stop_ms, stopped, again_ms, after, again_id);
}

/// Results that are not all successes have a first failure.
pub proof fn lemma_some_failure_is_first(results: Seq<SetupResult>)
    ensures
        all_succeeded(results) || exists|i: int| first_failure_at(results, i),
    decreases results.len(),
{
    if results.len() > 0 && !all_succeeded(results) {
        let rest = results.drop_last();
        lemma_some_failure_is_first(rest);
        if all_succeeded(rest) {
            assert forall|j: int| 0 <= j < results.len() - 1 implies (#[trigger] results[j]).success by {
                assert(rest[j].success);
            }
            assert(first_failure_at(results, results.len() - 1));
        } else {
            let i = choose|i: int| first_failure_at(rest, i);
            assert forall|j: int| 0 <= j < i implies (#[trigger] results[j]).success by {
                assert(rest[j].success);
            }
            assert(first_failure_at(results, i));
        }
    }
}

impl ContainerHandle {
    /// The identifier of the container.
    pub closed spec fn spec_id(&self) -> Seq<char> {
        self.id@
    }

    /// The identifier of the namespace of the container.
    pub closed spec fn spec_namespace_id(&self) -> u64 {
        self.namespace_id
    }

    /// Whether the container is running or stopped.
    pub closed spec fn spec_state(&self) -> LaunchState {
        self.state
    }

    /// The identifier of the container.
    pub fn id(&self) -> (id: &str)
        ensures
            id@ == self.spec_id(),
    {
        self.id.as_str()
    }

    /// The identifier of the namespace of the container.
    pub fn namespace_id(&self) -> (id: u64)
        ensures
            id == self.spec_namespace_id(),
    {
        self.namespace_id
    }

    /// Whether the container is running or stopped.
    pub fn state(&self) -> (state: LaunchState)
        ensures
            state == self.spec_state(),
    {
        self.state
    }

    /// Stops the container at the time `now_ms`.
    ///
    /// A running container becomes a stopped one, the stop is counted, and
    /// the namespace of the container is offered to the cache of the
    /// runtime for reuse; the cache takes it where caching is on, there is
    /// room, and the identifier is one that this runtime has given out. A container that is not running is left as it is,
    /// and so is the runtime: a container is stopped once.
    pub fn stop(&mut self, runtime: &mut FastRuntime, now_ms: u64) -> (outcome: Result<(), LaunchError>)
        ensures
            final(self).spec_id() == old(self).spec_id(),
            final(self).spec_namespace_id() == old(self).spec_namespace_id(),
            final(runtime)@.config == old(runtime)@.config,
            final(runtime)@.validity_ms == old(runtime)@.validity_ms,
            final(runtime)@.isolation == old(runtime)@.isolation,
            final(runtime)@.next_id == old(runtime)@.next_id,
            final(runtime).spec_limits() == old(runtime).spec_limits(),
            old(runtime)@.bounded() ==> final(runtime)@.bounded(),
            old(runtime)@.issued() ==> final(runtime)@.issued(),
            outcome is Ok == (old(self).spec_state() == LaunchState::Running),
            outcome is Ok ==> {
                &&& Some(final(self).spec_state()) == old(self).spec_state().spec_advance(
                    LaunchEvent::Stop,
                )
                &&& final(runtime)@.cache == old(runtime)@.offered(
                    CachedNamespace { id: old(self).spec_namespace_id(), created_at_ms: now_ms },
                )
                &&& final(runtime)@.metrics.container_stops
                    == old(runtime)@.metrics.container_stops.wrapping_add(1)
                &&& final(runtime)@.metrics.container_starts == old(runtime)@.metrics.container_starts
            },
            outcome matches Err(error) ==> {
                &&& error.failure == LaunchFailure::NotRunning
                &&& error.container_id@ == old(self).spec_id()
                &&& final(self).spec_state() == old(self).spec_state()
                &&& final(runtime)@ == old(runtime)@
            },
    {
        let timer = now();
        match self.state.advance(LaunchEvent::Stop) {
            Some(next) => {
                self.state = next;
                runtime.offer_to_cache(self.namespace_id, now_ms);
                runtime.metrics.record_container_stop(nanos_of(&elapsed_since(&timer)));
                Ok(())
            },
            None => Err(LaunchError { container_id: self.id.clone(), failure: LaunchFailure::NotRunning }),
        }
    }

    /// The logs of the container, read through a buffer of 64 KiB that is
    /// borrowed from the pool for the time of the read. There is no workload
    /// yet whose output could be read, so the text is a fixed one.
    pub fn logs(&self, pool: &mut BufferPool) -> (outcome: Result<String, LaunchError>)
        requires
            old(pool).well_formed(),
        ensures
            final(pool).well_formed(),
            outcome matches Ok(text) && text@ == "Container logs would appear here"@,
            final(pool).spare() == old(pool).spare().update(
                spec_size_class(LOG_BUFFER_SIZE),
                if old(pool).spare()[spec_size_class(LOG_BUFFER_SIZE)] > 0 {
                    old(pool).spare()[spec_size_class(LOG_BUFFER_SIZE)]
                } else {
                    1nat
                },
            ),
    {
        let buffer = pool.get_buffer(LOG_BUFFER_SIZE);
        assert(buffer.class() == 1);
        pool.return_buffer(buffer);
        proof {
            pool.lemma_spare_counts();
            old(pool).lemma_spare_counts();
            assert(pool.spare() =~= old(pool).spare().update(
                spec_size_class(LOG_BUFFER_SIZE),
                if old(pool).spare()[spec_size_class(LOG_BUFFER_SIZE)] > 0 {
                    old(pool).spare()[spec_size_class(LOG_BUFFER_SIZE)]
                } else {
                    1nat
                },
            ));
        }
        Ok(String::from_str("Container logs would appear here"))
    }
}

} // verus!

use enviro_core::engine::parallel_setup::{
    NamespaceKind, NamespaceSetupConfig, ParallelNamespaceSetup, ParallelSetupReport, SetupFailure,
};
use enviro_core::engine::resource_limits::{
    LimitError, OptimizedResourceLimits, ResourceKind, ResourceProfile,
};
use enviro_core::engine::namespace_cache::NamespaceTemplate;
use enviro_core::memory::BufferPool;
use enviro_core::runtime::{
    CachedNamespace, ContainerHandle, FastRuntime, FastStartConfig, LaunchEvent, LaunchFailure,
    LaunchState, NAMESPACE_VALIDITY_MS,
};
use std::time::Duration;

/// Runs the units of the given kinds and gathers their results.
fn bring_up(config: NamespaceSetupConfig) -> ParallelSetupReport {
    let setup = ParallelNamespaceSetup::new(config);
    let mut fan_in = setup.begin();
    for kind in setup.plan() {
        fan_in.record(setup.setup_namespace(kind));
    }
    fan_in.finish(Duration::from_millis(1)).unwrap()
}

fn start(runtime: &mut FastRuntime, id: &str, now_ms: u64) -> ContainerHandle {
    runtime.start_container(id, "alpine:latest", "/bin/sh", vec![], now_ms, bring_up).unwrap()
}

#[test]
fn test_fast_runtime_creation() {
    let runtime = FastRuntime::new();
    assert!(runtime.config().parallel_namespaces);
    assert!(runtime.config().use_namespace_cache);
}

#[test]
fn test_namespace_cache() {
    let mut runtime = FastRuntime::new();

    // Create first namespace
    let ns1 = match runtime.get_cached_namespace(0) {
        Some(id) => id,
        None => runtime.create_namespace_fast(&bring_up(runtime.setup_config()), 0, 0).unwrap(),
    };
    assert!(ns1 > 0);

    // Return it to cache by creating a new one
    let ns2 = runtime.create_namespace_fast(&bring_up(runtime.setup_config()), 0, 0).unwrap();
    assert!(ns2 > 0);

    // Check cache has entries
    assert!(runtime.cached_namespaces() > 0);
}

#[test]
fn test_container_start() {
    let mut runtime = FastRuntime::new();

    let handle = start(&mut runtime, "test-container", 0);

    assert_eq!(handle.id(), "test-container");
    assert!(handle.namespace_id() > 0);
}

#[test]
fn test_container_stop() {
    let mut runtime = FastRuntime::new();

    let mut handle = start(&mut runtime, "test-container", 0);

    // Stop should complete without error
    handle.stop(&mut runtime, 0).unwrap();

    // Check metrics
    let snapshot = runtime.metrics().snapshot();
    assert_eq!(snapshot.counters.container_starts, 1);
    assert_eq!(snapshot.counters.container_stops, 1);
}

#[test]
fn test_parallel_namespace_setup() {
    let config = FastStartConfig {
        parallel_namespaces: true,
        use_namespace_cache: false,
        prewarm_executors: false,
        max_cached_namespaces: 10,
    };

    let mut runtime = FastRuntime::with_config(config);

    let start = std::time::Instant::now();
    let _ns_id = runtime.create_namespace_fast(&bring_up(runtime.setup_config()), 0, 0).unwrap();
    let duration = start.elapsed();

    // Parallel setup should be faster than 50ms
    assert!(duration.as_millis() < 50);
}

#[test]
fn test_metrics_tracking() {
    let mut runtime = FastRuntime::new();

    // Start multiple containers
    for i in 0..5 {
        let _handle = start(&mut runtime, &format!("container-{}", i), 0);
    }

    let snapshot = runtime.metrics().snapshot();
    assert_eq!(snapshot.counters.container_starts, 5);
    let avg_container_start_ms =
        snapshot.counters.container_start_time_ns as f64 / 5.0 / 1_000_000.0;
    assert!(avg_container_start_ms >= 0.0);
}

#[test]
fn a_stopped_containers_namespace_is_reused_within_the_window() {
    let mut runtime = FastRuntime::with_config(FastStartConfig {
        parallel_namespaces: true,
        use_namespace_cache: true,
        prewarm_executors: true,
        max_cached_namespaces: 10,
    });
    let mut first = start(&mut runtime, "first", 1_000);
    let first_id = first.namespace_id();
    first.stop(&mut runtime, 2_000).unwrap();
    let creates = runtime.metrics().namespace_creates;
    let second = runtime
        .start_container("second", "alpine", "/bin/sh", vec![], 2_000 + 59_999, |_| {
            panic!("a cached namespace needs no bring-up")
        })
        .unwrap();
    assert_eq!(second.namespace_id(), first_id);
    assert_eq!(runtime.metrics().namespace_cache_hits, 1);
    assert_eq!(runtime.metrics().namespace_creates, creates);
    assert_eq!(runtime.metrics().container_starts, 2);
    assert_eq!(runtime.metrics().buffer_reuses, 0);
}

#[test]
fn an_expired_namespace_is_discarded_not_reused() {
    let mut runtime = FastRuntime::new();
    let mut first = start(&mut runtime, "first", 0);
    // The fresh namespace was offered to the cache when it was made; take it out.
    assert_eq!(runtime.get_cached_namespace(0), Some(first.namespace_id()));
    assert_eq!(runtime.cached_namespaces(), 0);
    first.stop(&mut runtime, 5_000).unwrap();
    assert_eq!(runtime.cached_namespaces(), 1);
    let hits = runtime.metrics().namespace_cache_hits;
    let second = start(&mut runtime, "second", 5_000 + NAMESPACE_VALIDITY_MS);
    assert_ne!(second.namespace_id(), first.namespace_id());
    assert_eq!(second.namespace_id(), first.namespace_id() + 1);
    assert_eq!(runtime.metrics().namespace_cache_hits, hits);
    // The expired entry is gone; the fresh namespace took its place.
    assert_eq!(runtime.cached_namespaces(), 1);
    assert_eq!(runtime.get_cached_namespace(5_000 + NAMESPACE_VALIDITY_MS), Some(second.namespace_id()));
}

#[test]
fn validity_window_boundaries() {
    let entry = CachedNamespace { id: 7, created_at_ms: 100 };
    assert!(entry.is_valid_at(100));
    assert!(entry.is_valid_at(100 + 59_999));
    assert!(!entry.is_valid_at(100 + 60_000));
    assert!(!entry.is_valid_at(u64::MAX));
    // An entry from the future has age 0.
    assert!(entry.is_valid_at(0));
    assert_eq!(NAMESPACE_VALIDITY_MS, 60_000);
    assert!(entry.is_valid_within(109, 10));
    assert!(!entry.is_valid_within(110, 10));
    assert!(!entry.is_valid_within(100, 0));
    assert!(!entry.is_valid_within(0, 0));
}

#[test]
fn the_validity_window_can_be_set() {
    let mut runtime = FastRuntime::with_first_id(FastStartConfig::default(), 100);
    runtime.set_validity_window(500);
    assert!(runtime.offer_to_cache(3, 1_000));
    assert!(runtime.offer_to_cache(4, 1_000));
    assert!(runtime.would_reuse(1_499));
    assert!(!runtime.would_reuse(1_500));
    assert_eq!(runtime.get_cached_namespace(1_500), None);
    assert_eq!(runtime.get_cached_namespace(1_499), Some(3));
    assert!(!runtime.would_reuse(0));
}

#[test]
fn without_caching_every_start_gets_the_next_identifier() {
    let mut runtime = FastRuntime::with_config(FastStartConfig {
        parallel_namespaces: true,
        use_namespace_cache: false,
        prewarm_executors: false,
        max_cached_namespaces: 10,
    });
    let mut ids = Vec::new();
    for i in 0..5 {
        let mut handle = start(&mut runtime, &format!("c{}", i), 10 * i);
        ids.push(handle.namespace_id());
        handle.stop(&mut runtime, 10 * i + 1).unwrap();
    }
    assert_eq!(ids, vec![1, 2, 3, 4, 5]);
    assert_eq!(runtime.metrics().container_starts, 5);
    assert_eq!(runtime.metrics().container_stops, 5);
    assert_eq!(runtime.metrics().namespace_creates, 5);
    assert_eq!(runtime.metrics().namespace_cache_hits, 0);
    assert_eq!(runtime.cached_namespaces(), 0);
}

#[test]
fn the_cache_never_grows_beyond_its_maximum_and_never_evicts() {
    let mut runtime = FastRuntime::with_first_id(
        FastStartConfig {
            parallel_namespaces: true,
            use_namespace_cache: true,
            prewarm_executors: false,
            max_cached_namespaces: 2,
        },
        100,
    );
    assert!(runtime.offer_to_cache(10, 0));
    assert!(runtime.offer_to_cache(11, 0));
    assert!(!runtime.offer_to_cache(12, 0));
    assert_eq!(runtime.cached_namespaces(), 2);
    // A fresh namespace finds the cache full: it is dropped, nothing is evicted,
    // and its identifier is that of no cached namespace.
    let fresh = runtime.create_namespace_fast(&bring_up(runtime.setup_config()), 0, 0).unwrap();
    assert_eq!(fresh, 100);
    assert_eq!(runtime.cached_namespaces(), 2);
    // Last in, first out; the dropped ones never got in.
    assert_eq!(runtime.get_cached_namespace(1), Some(11));
    assert_eq!(runtime.get_cached_namespace(1), Some(10));
    assert_eq!(runtime.get_cached_namespace(1), None);
    let mut none = FastRuntime::with_first_id(
        FastStartConfig {
            parallel_namespaces: true,
            use_namespace_cache: true,
            prewarm_executors: false,
            max_cached_namespaces: 0,
        },
        100,
    );
    assert!(!none.offer_to_cache(1, 0));
    assert_eq!(none.cached_namespaces(), 0);
}

#[test]
fn the_cache_takes_only_identifiers_that_the_runtime_gave_out() {
    let mut runtime = FastRuntime::new();
    // Nothing was given out yet: the first fresh namespace will be number 1.
    assert!(!runtime.offer_to_cache(1, 0));
    assert!(!runtime.offer_to_cache(u64::MAX, 0));
    assert_eq!(runtime.cached_namespaces(), 0);
    let first = runtime.create_namespace_fast(&bring_up(runtime.setup_config()), 0, 0).unwrap();
    assert_eq!(first, 1);
    assert_eq!(runtime.cached_namespaces(), 1);
    assert!(runtime.offer_to_cache(1, 5));
    assert!(!runtime.offer_to_cache(2, 5));
    assert_eq!(runtime.cached_namespaces(), 2);

    // A handle of another runtime carries an identifier that this one never gave out.
    let mut busy = FastRuntime::with_first_id(FastStartConfig::default(), 50);
    let mut foreign = start(&mut busy, "elsewhere", 0);
    assert_eq!(foreign.namespace_id(), 50);
    assert_eq!(foreign.stop(&mut runtime, 6), Ok(()));
    assert_eq!(runtime.cached_namespaces(), 2);
    assert_eq!(runtime.metrics().container_stops, 1);
}

#[test]
fn a_container_is_stopped_once() {
    let mut runtime = FastRuntime::new();
    let mut handle = start(&mut runtime, "once", 0);
    assert_eq!(handle.state(), LaunchState::Running);
    assert_eq!(handle.stop(&mut runtime, 1), Ok(()));
    assert_eq!(handle.state(), LaunchState::Stopped);
    let cached = runtime.cached_namespaces();
    let error = handle.stop(&mut runtime, 2).unwrap_err();
    assert_eq!(error.failure, LaunchFailure::NotRunning);
    assert_eq!(error.container_id, "once");
    assert_eq!(runtime.cached_namespaces(), cached);
    assert_eq!(runtime.metrics().container_stops, 1);
    let mut pool = BufferPool::new();
    let spare = pool.stats();
    assert_eq!(handle.logs(&mut pool).unwrap(), "Container logs would appear here");
    // The buffer of the read is back in the pool.
    assert_eq!(pool.stats(), spare);
}

#[test]
fn a_failed_bring_up_fails_the_launch_and_counts_no_start() {
    let mut runtime = FastRuntime::new();
    let error = runtime
        .start_container("bad", "alpine", "/bin/sh", vec![], 0, |config| {
            let setup = ParallelNamespaceSetup::new(config);
            let mut fan_in = setup.begin();
            fan_in.record(setup.setup_namespace(NamespaceKind::User));
            fan_in.record(ParallelNamespaceSetup::judge(
                NamespaceKind::Network,
                Duration::from_millis(1),
                Err(SetupFailure::Failed("no veth".to_string())),
            ));
            fan_in.record(ParallelNamespaceSetup::judge(
                NamespaceKind::Mount,
                Duration::from_millis(1),
                Err(SetupFailure::TimedOut),
            ));
            fan_in.record(setup.setup_namespace(NamespaceKind::Pid));
            fan_in.finish(Duration::from_millis(2)).unwrap()
        })
        .unwrap_err();
    assert_eq!(error.container_id, "bad");
    assert_eq!(
        error.failure,
        LaunchFailure::NamespaceSetup { kind: NamespaceKind::Network, message: "no veth".to_string() }
    );
    assert_eq!(runtime.metrics().container_starts, 0);
    assert_eq!(runtime.metrics().namespace_creates, 1);
    assert_eq!(runtime.cached_namespaces(), 0);
    // The identifier was not used up.
    assert_eq!(start(&mut runtime, "good", 0).namespace_id(), 1);
}

#[test]
fn a_partial_report_fails_the_launch() {
    let mut runtime = FastRuntime::new();
    let error = runtime
        .start_container("partial", "alpine", "/bin/sh", vec![], 0, |_| {
            bring_up(NamespaceSetupConfig { user: true, network: true, mount: false, pid: true })
        })
        .unwrap_err();
    assert_eq!(error.failure, LaunchFailure::IncompleteBringUp);
    let wrong_order = ParallelSetupReport {
        results: vec![
            ParallelNamespaceSetup::new(NamespaceSetupConfig::default()).setup_namespace(NamespaceKind::Pid),
        ],
        total_duration: Duration::from_millis(1),
    };
    assert_eq!(
        FastRuntime::judge_bring_up(&vec![NamespaceKind::User], &wrong_order),
        Err(LaunchFailure::IncompleteBringUp)
    );
    assert_eq!(FastRuntime::judge_bring_up(&vec![NamespaceKind::Pid], &wrong_order), Ok(()));
    assert_eq!(FastRuntime::judge_bring_up(&vec![], &bring_up(NamespaceSetupConfig {
        user: false, network: false, mount: false, pid: false,
    })), Ok(()));
}

#[test]
fn sequential_bring_up_needs_no_scheduler() {
    let mut runtime = FastRuntime::with_config(FastStartConfig {
        parallel_namespaces: false,
        use_namespace_cache: false,
        prewarm_executors: false,
        max_cached_namespaces: 10,
    });
    let report = runtime.bring_up_sequential();
    let kinds: Vec<NamespaceKind> = report.results.iter().map(|r| r.kind).collect();
    assert_eq!(
        kinds,
        vec![NamespaceKind::User, NamespaceKind::Network, NamespaceKind::Mount, NamespaceKind::Pid]
    );
    assert!(report.all_succeeded());
    let handle = runtime
        .start_container("seq", "alpine", "/bin/sh", vec![], 0, |_| panic!("not parallel"))
        .unwrap();
    assert_eq!(handle.namespace_id(), 1);
    assert_eq!(runtime.generate_namespace_id(), Some(2));
    assert_eq!(runtime.generate_namespace_id(), Some(3));
}

#[test]
fn launch_states_follow_the_one_order() {
    type S = LaunchState;
    type E = LaunchEvent;
    let path = [
        (S::Requested, E::NamespaceReady, S::NamespaceResolved),
        (S::NamespaceResolved, E::LimitsReady, S::LimitsApplied),
        (S::LimitsApplied, E::ContextReady, S::ContextAssembled),
        (S::ContextAssembled, E::Started, S::Running),
        (S::Running, E::Stop, S::Stopped),
        (S::Requested, E::NamespaceFailed, S::Failed),
        (S::NamespaceResolved, E::LimitsFailed, S::Failed),
    ];
    let states = [
        S::Requested,
        S::NamespaceResolved,
        S::LimitsApplied,
        S::ContextAssembled,
        S::Running,
        S::Stopped,
        S::Failed,
    ];
    let events = [
        E::NamespaceReady,
        E::NamespaceFailed,
        E::LimitsReady,
        E::LimitsFailed,
        E::ContextReady,
        E::Started,
        E::Stop,
    ];
    for state in states {
        for event in events {
            let expected = path.iter().find(|(s, e, _)| *s == state && *e == event).map(|(_, _, n)| *n);
            assert_eq!(state.advance(event), expected);
        }
    }
}

#[test]
fn the_execution_context_of_a_launch() {
    let context = FastRuntime::assemble_context("ctx-1");
    assert_eq!(context.container_id, "ctx-1");
    assert!(context.env.is_empty());
    assert_eq!(context.workdir, "/");
    assert_eq!(context.limits.cpu_millicores, 1000);
    assert_eq!(context.limits.memory_bytes, 512 * 1024 * 1024);
    assert_eq!(context.limits.pid_limit, 100);
    assert!(context.network.isolated);
    assert_eq!(context.network.ip_address, None);
    assert_eq!(context.network.dns_servers, vec!["8.8.8.8".to_string()]);
}

#[test]
fn runtime_defaults_and_limits() {
    let config = FastStartConfig::default();
    assert!(config.parallel_namespaces && config.use_namespace_cache && config.prewarm_executors);
    assert_eq!(config.max_cached_namespaces, 10);
    let mut runtime = FastRuntime::new();
    assert_eq!(runtime.setup_config(), NamespaceSetupConfig::default());
    assert_eq!(runtime.cached_namespaces(), 0);
    runtime.set_limits(OptimizedResourceLimits::from_profile(ResourceProfile::Minimal));
    assert_eq!(start(&mut runtime, "limited", 0).namespace_id(), 1);
}

#[test]
fn a_template_decides_which_namespaces_a_runtime_brings_up() {
    let mut template = NamespaceTemplate::new("quiet");
    template.isolate_network = false;
    template.isolate_pid = false;
    template.host_uid = 4000;
    let mut runtime = FastRuntime::with_template(FastStartConfig::default(), &template);
    assert_eq!(
        runtime.setup_config(),
        NamespaceSetupConfig { user: true, network: false, mount: true, pid: false }
    );
    assert_eq!(runtime.isolation().config().host_uid, 4000);
    assert_eq!(start(&mut runtime, "t", 0).namespace_id(), 1);
    // A report on all four kinds is not the report that was asked for.
    let error = runtime
        .start_container("u", "alpine", "/bin/sh", vec![], NAMESPACE_VALIDITY_MS, |_| {
            bring_up(NamespaceSetupConfig::default())
        })
        .unwrap_err();
    assert_eq!(error.failure, LaunchFailure::IncompleteBringUp);
}

#[test]
fn a_refused_limit_is_fatal_to_the_launch() {
    let mut runtime = FastRuntime::new();
    let mut limits = OptimizedResourceLimits::from_profile(ResourceProfile::Minimal);
    limits.set_override(ResourceKind::PidsMax, 7);
    runtime.set_limits(limits);
    let mut seen = Vec::new();
    let error = runtime
        .start_container_with("thirsty", "alpine", "/bin/sh", vec![], 0, bring_up, |mut session| {
            while let Some(write) = session.next_write() {
                let accepted = write.file != "cpu.max";
                seen.push((write.file, write.payload));
                session.record(accepted);
            }
            session.finish()
        })
        .unwrap_err();
    assert_eq!(error.container_id, "thirsty");
    assert_eq!(error.failure, LaunchFailure::Limits(LimitError { kind: ResourceKind::CpuMaxMicros }));
    assert_eq!(
        seen,
        vec![
            ("memory.max".to_string(), "134217728".to_string()),
            ("memory.high".to_string(), "100663296".to_string()),
            ("cpu.weight".to_string(), "50".to_string()),
            ("cpu.max".to_string(), "50000".to_string()),
        ]
    );
    assert_eq!(runtime.metrics().container_starts, 0);
    // The bring-up happened and is counted, but the cache is as it was before.
    assert_eq!(runtime.metrics().namespace_creates, 1);
    assert_eq!(runtime.metrics().namespace_cache_hits, 0);
    assert_eq!(runtime.cached_namespaces(), 0);
    // With every write accepted the launch goes through, on a namespace of its own.
    let handle = runtime
        .start_container_with("fed", "alpine", "/bin/sh", vec![], 1, bring_up, |session| {
            session.accept_all()
        })
        .unwrap();
    assert_eq!(handle.namespace_id(), 2);
    assert_eq!(runtime.metrics().container_starts, 1);
}

#[test]
fn a_refused_limit_puts_the_reused_namespace_back() {
    let mut runtime = FastRuntime::with_first_id(FastStartConfig::default(), 100);
    assert!(runtime.offer_to_cache(7, 1_000));
    assert!(runtime.offer_to_cache(8, 2_000));
    let error = runtime
        .start_container_with(
            "dry",
            "alpine",
            "/bin/sh",
            vec![],
            3_000,
            |_| panic!("a cached namespace needs no bring-up"),
            |mut session| {
                session.record(false);
                session.finish()
            },
        )
        .unwrap_err();
    assert_eq!(error.failure, LaunchFailure::Limits(LimitError { kind: ResourceKind::MemoryMax }));
    assert_eq!(runtime.metrics().namespace_cache_hits, 0);
    assert_eq!(runtime.metrics().namespace_creates, 0);
    assert_eq!(runtime.metrics().container_starts, 0);
    assert_eq!(runtime.cached_namespaces(), 2);
    // The namespace is back on top with the age it had: it expires when it would have.
    assert!(runtime.would_reuse(2_000 + 59_999));
    assert!(!runtime.would_reuse(2_000 + 60_000));
    assert_eq!(runtime.get_cached_namespace(3_000), Some(8));
    assert_eq!(runtime.get_cached_namespace(3_000), Some(7));
    assert_eq!(runtime.generate_namespace_id(), Some(100));
}

#[test]
fn a_refused_limit_after_a_stale_namespace_leaves_the_cache_as_it_was() {
    let mut runtime = FastRuntime::with_first_id(
        FastStartConfig {
            parallel_namespaces: false,
            use_namespace_cache: true,
            prewarm_executors: false,
            max_cached_namespaces: 1,
        },
        100,
    );
    assert!(runtime.offer_to_cache(9, 0));
    let error = runtime
        .start_container_with(
            "late",
            "alpine",
            "/bin/sh",
            vec![],
            NAMESPACE_VALIDITY_MS,
            |_| panic!("not parallel"),
            |mut session| {
                session.record(true);
                session.record(false);
                session.finish()
            },
        )
        .unwrap_err();
    assert_eq!(error.failure, LaunchFailure::Limits(LimitError { kind: ResourceKind::MemoryHigh }));
    assert_eq!(runtime.cached_namespaces(), 1);
    assert_eq!(runtime.metrics().namespace_creates, 1);
    // The stale namespace is the one in the cache, and the identifier 100 is used up.
    assert_eq!(runtime.get_cached_namespace(0), Some(9));
    assert_eq!(runtime.generate_namespace_id(), Some(101));
}

#[test]
fn no_identifier_left_fails_the_launch() {
    let config = FastStartConfig {
        parallel_namespaces: true,
        use_namespace_cache: false,
        prewarm_executors: false,
        max_cached_namespaces: 10,
    };
    let mut runtime = FastRuntime::with_first_id(config, u64::MAX - 1);
    assert_eq!(start(&mut runtime, "last", 0).namespace_id(), u64::MAX - 1);
    let error = runtime
        .start_container("none", "alpine", "/bin/sh", vec![], 0, bring_up)
        .unwrap_err();
    assert_eq!(error.failure, LaunchFailure::IdsExhausted);
    assert_eq!(runtime.generate_namespace_id(), None);
    assert_eq!(runtime.metrics().container_starts, 1);
    assert_eq!(runtime.metrics().namespace_creates, 2);
}

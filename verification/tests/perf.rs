use enviro_core::perf::{PerfMetrics, ScopedTimer, TimerType};
use std::time::{Duration, Instant};

fn nanos(duration: Duration) -> u64 {
    duration.as_nanos() as u64
}

#[test]
fn test_metrics_creation() {
    let metrics = PerfMetrics::new();
    let snapshot = metrics.snapshot();
    assert_eq!(snapshot.counters.container_starts, 0);
    assert_eq!(snapshot.counters.executions, 0);
}

#[test]
fn test_record_operations() {
    let mut metrics = PerfMetrics::new();

    metrics.record_container_start(nanos(Duration::from_millis(100)));
    metrics.record_container_start(nanos(Duration::from_millis(200)));

    let snapshot = metrics.snapshot();
    assert_eq!(snapshot.counters.container_starts, 2);
    let avg_container_start_ms = snapshot.counters.container_start_time_ns as f64
        / snapshot.counters.container_starts as f64
        / 1_000_000.0;
    assert_eq!(avg_container_start_ms, 150.0);
    assert_eq!(snapshot.mean_nanos(TimerType::ContainerStart), 150_000_000);
}

#[test]
fn test_buffer_reuse_rate() {
    let mut metrics = PerfMetrics::new();

    metrics.record_buffer_allocation();
    metrics.record_buffer_allocation();
    metrics.record_buffer_reuse();
    metrics.record_buffer_reuse();
    metrics.record_buffer_reuse();

    let snapshot = metrics.snapshot();
    assert_eq!(snapshot.counters.buffer_allocations, 2);
    assert_eq!(snapshot.counters.buffer_reuses, 3);
    let buffer_reuse_rate = snapshot.counters.buffer_reuses as f64
        / (snapshot.counters.buffer_allocations + snapshot.counters.buffer_reuses) as f64
        * 100.0;
    assert_eq!(buffer_reuse_rate, 60.0);
    assert_eq!(snapshot.buffer_reuse_basis_points(), 6000);
}

#[test]
fn test_metrics_reset() {
    let mut metrics = PerfMetrics::new();

    metrics.record_container_start(nanos(Duration::from_millis(100)));
    metrics.record_execution(nanos(Duration::from_millis(50)));

    let snapshot1 = metrics.snapshot();
    assert_eq!(snapshot1.counters.container_starts, 1);
    assert_eq!(snapshot1.counters.executions, 1);

    metrics.reset();

    let snapshot2 = metrics.snapshot();
    assert_eq!(snapshot2.counters.container_starts, 0);
    assert_eq!(snapshot2.counters.executions, 0);
}

#[test]
fn test_scoped_timer() {
    let mut metrics = PerfMetrics::new();

    {
        let timer = ScopedTimer::new(TimerType::ContainerStart);
        let begin = Instant::now();
        while begin.elapsed() < Duration::from_millis(10) {}
        timer.finish(&mut metrics);
    }

    let snapshot = metrics.snapshot();
    assert_eq!(snapshot.counters.container_starts, 1);
    let avg_container_start_ms = snapshot.counters.container_start_time_ns as f64 / 1_000_000.0;
    assert!(avg_container_start_ms >= 10.0);
}

#[test]
fn each_kind_of_operation_has_its_own_counters() {
    let mut metrics = PerfMetrics::new();
    metrics.record(TimerType::ContainerStart, 1);
    metrics.record(TimerType::ContainerStop, 2);
    metrics.record(TimerType::ContainerStop, 2);
    metrics.record(TimerType::NamespaceCreate, 3);
    metrics.record(TimerType::Execution, 4);
    metrics.record(TimerType::PluginLoad, 5);
    metrics.record_namespace_create(3);
    metrics.record_plugin_load(7);
    metrics.record_container_stop(0);
    metrics.record_namespace_cache_hit();
    let expected = PerfMetrics {
        container_starts: 1,
        container_start_time_ns: 1,
        container_stops: 3,
        container_stop_time_ns: 4,
        namespace_creates: 2,
        namespace_create_time_ns: 6,
        namespace_cache_hits: 1,
        executions: 1,
        execution_time_ns: 4,
        buffer_allocations: 0,
        buffer_reuses: 0,
        plugin_loads: 2,
        plugin_load_time_ns: 12,
    };
    assert_eq!(metrics, expected);
    assert_eq!(metrics.snapshot().counters, expected);
    assert_eq!(PerfMetrics::default(), PerfMetrics::new());
}

#[test]
fn counters_wrap_around_and_means_round_down() {
    let mut metrics = PerfMetrics::new();
    metrics.container_starts = u64::MAX;
    metrics.container_start_time_ns = u64::MAX - 1;
    metrics.record_container_start(3);
    assert_eq!(metrics.container_starts, 0);
    assert_eq!(metrics.container_start_time_ns, 1);
    let snapshot = metrics.snapshot();
    assert_eq!(snapshot.mean_nanos(TimerType::ContainerStart), 0);
    assert_eq!(snapshot.mean_nanos(TimerType::PluginLoad), 0);
    assert_eq!(snapshot.buffer_reuse_basis_points(), 0);
    let mut other = PerfMetrics::new();
    other.record_execution(10);
    other.record_execution(11);
    other.record_execution(12);
    other.record_buffer_reuse();
    other.buffer_allocations = 2;
    assert_eq!(other.snapshot().mean_nanos(TimerType::Execution), 11);
    assert_eq!(other.snapshot().buffer_reuse_basis_points(), 3333);
    other.buffer_allocations = u64::MAX;
    other.buffer_reuses = u64::MAX;
    assert_eq!(other.snapshot().buffer_reuse_basis_points(), 5000);
}

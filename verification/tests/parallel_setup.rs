use enviro_core::engine::parallel_setup::{
    FanIn, NamespaceKind, NamespaceSetupConfig, ParallelNamespaceSetup, ParallelSetupReport,
    SetupFailure, SetupResult,
};
use std::time::Duration;

fn run_all(setup: &ParallelNamespaceSetup) -> ParallelSetupReport {
    let mut fan_in: FanIn = setup.begin();
    for kind in setup.plan() {
        assert!(fan_in.record(setup.setup_namespace(kind)));
    }
    fan_in.finish(Duration::from_millis(1)).unwrap()
}

#[test]
fn test_namespace_kind_display() {
    assert_eq!(NamespaceKind::User.to_string(), "user");
    assert_eq!(NamespaceKind::Network.to_string(), "network");
    assert_eq!(NamespaceKind::Mount.to_string(), "mount");
    assert_eq!(NamespaceKind::Pid.to_string(), "pid");
}

#[test]
fn test_setup_result_fields() {
    let result = SetupResult {
        kind: NamespaceKind::User,
        duration: Duration::from_millis(5),
        success: true,
        message: "ok".to_string(),
    };
    assert!(result.success);
    assert_eq!(result.kind, NamespaceKind::User);
}

#[test]
fn test_report_failures() {
    let report = ParallelSetupReport {
        results: vec![
            SetupResult {
                kind: NamespaceKind::User,
                duration: Duration::from_millis(1),
                success: true,
                message: "ok".into(),
            },
            SetupResult {
                kind: NamespaceKind::Network,
                duration: Duration::from_millis(2),
                success: false,
                message: "denied".into(),
            },
        ],
        total_duration: Duration::from_millis(3),
    };

    assert!(!report.all_succeeded());
    let failures = report.failures();
    assert_eq!(failures.len(), 1);
    assert_eq!(failures[0].kind, NamespaceKind::Network);
}

#[test]
fn test_all_namespaces_succeed() {
    let setup = ParallelNamespaceSetup::new(NamespaceSetupConfig::default());
    let report = run_all(&setup);

    assert!(report.all_succeeded());
    assert_eq!(report.results.len(), 4);
    assert!(report.failures().is_empty());
}

#[test]
fn test_timing_recorded() {
    let setup = ParallelNamespaceSetup::new(NamespaceSetupConfig::default());
    let report = run_all(&setup);

    for result in &report.results {
        // Each step should complete in well under a second.
        assert!(result.duration < Duration::from_secs(1));
    }
    assert!(report.total_duration < Duration::from_secs(1));
}

#[test]
fn test_selective_namespaces() {
    let config = NamespaceSetupConfig { user: true, network: false, mount: true, pid: false };
    let setup = ParallelNamespaceSetup::new(config);
    let report = run_all(&setup);

    assert_eq!(report.results.len(), 2);
    let kinds: Vec<_> = report.results.iter().map(|r| r.kind).collect();
    assert!(kinds.contains(&NamespaceKind::User));
    assert!(kinds.contains(&NamespaceKind::Mount));
    assert!(!kinds.contains(&NamespaceKind::Network));
    assert!(!kinds.contains(&NamespaceKind::Pid));
}

#[test]
fn test_no_namespaces() {
    let config = NamespaceSetupConfig { user: false, network: false, mount: false, pid: false };
    let setup = ParallelNamespaceSetup::new(config);
    let report = run_all(&setup);

    assert!(report.all_succeeded());
    assert!(report.results.is_empty());
}

#[test]
fn test_result_messages() {
    let setup = ParallelNamespaceSetup::new(NamespaceSetupConfig::default());
    let report = run_all(&setup);

    for result in &report.results {
        assert!(
            result.message.contains("configured"),
            "unexpected message: {}",
            result.message
        );
    }
}

#[test]
fn enabling_k_kinds_gives_k_results_in_order() {
    let order = [NamespaceKind::User, NamespaceKind::Network, NamespaceKind::Mount, NamespaceKind::Pid];
    for mask in 0..16u32 {
        let config = NamespaceSetupConfig {
            user: mask & 1 != 0,
            network: mask & 2 != 0,
            mount: mask & 4 != 0,
            pid: mask & 8 != 0,
        };
        let expected: Vec<NamespaceKind> =
            order.iter().copied().filter(|k| config.is_enabled(*k)).collect();
        assert_eq!(expected.len() as u32, mask.count_ones());
        let setup = ParallelNamespaceSetup::new(config);
        assert_eq!(*setup.config(), config);
        assert_eq!(setup.plan(), expected);
        let report = run_all(&setup);
        let kinds: Vec<NamespaceKind> = report.results.iter().map(|r| r.kind).collect();
        assert_eq!(kinds, expected);
        assert!(report.all_succeeded());
    }
}

#[test]
fn no_report_before_every_enabled_kind_is_in() {
    let setup = ParallelNamespaceSetup::new(NamespaceSetupConfig::default());
    let mut fan_in = setup.begin();
    assert!(!fan_in.is_complete());
    // Results may come in any order.
    assert!(fan_in.record(setup.setup_namespace(NamespaceKind::Pid)));
    assert!(fan_in.record(setup.setup_namespace(NamespaceKind::User)));
    assert!(fan_in.record(setup.setup_namespace(NamespaceKind::Mount)));
    assert!(!fan_in.is_complete());
    assert!(fan_in.finish(Duration::from_millis(2)).is_none());
}

#[test]
fn a_kind_is_recorded_once_and_only_if_enabled() {
    let config = NamespaceSetupConfig { user: true, network: false, mount: false, pid: false };
    let setup = ParallelNamespaceSetup::new(config);
    let mut fan_in = setup.begin();
    assert!(!fan_in.record(setup.setup_namespace(NamespaceKind::Network)));
    assert!(fan_in.record(ParallelNamespaceSetup::judge(
        NamespaceKind::User,
        Duration::from_millis(7),
        Err(SetupFailure::Failed("denied".to_string())),
    )));
    assert!(!fan_in.record(setup.setup_namespace(NamespaceKind::User)));
    assert!(fan_in.is_complete());
    let report = fan_in.finish(Duration::from_millis(9)).unwrap();
    assert_eq!(report.total_duration, Duration::from_millis(9));
    assert_eq!(report.results.len(), 1);
    assert!(!report.results[0].success);
    assert_eq!(report.results[0].message, "denied");
    assert_eq!(report.results[0].duration, Duration::from_millis(7));
    assert!(!report.all_succeeded());
}

#[test]
fn one_failure_leaves_the_other_results_alone() {
    let setup = ParallelNamespaceSetup::new(NamespaceSetupConfig::default());
    let mut fan_in = setup.begin();
    fan_in.record(setup.setup_namespace(NamespaceKind::User));
    fan_in.record(ParallelNamespaceSetup::judge(
        NamespaceKind::Network,
        Duration::from_millis(1),
        Err(SetupFailure::TimedOut),
    ));
    fan_in.record(setup.setup_namespace(NamespaceKind::Mount));
    fan_in.record(setup.setup_namespace(NamespaceKind::Pid));
    let report = fan_in.finish(Duration::from_millis(1)).unwrap();
    assert_eq!(report.results.len(), 4);
    assert!(!report.all_succeeded());
    let failures = report.failures();
    assert_eq!(failures.len(), 1);
    assert_eq!(failures[0].kind, NamespaceKind::Network);
    assert_eq!(failures[0].message, "namespace setup timed out");
    assert_eq!(report.results[0].message, "user namespace configured");
    assert_eq!(report.results[2].message, "mount namespace configured");
    assert_eq!(report.results[3].message, "pid namespace configured");
}

#[test]
fn judge_and_simulated_setup() {
    let ok = ParallelNamespaceSetup::do_namespace_setup(NamespaceKind::Network);
    assert_eq!(ok, Ok("network namespace configured".to_string()));
    let result = ParallelNamespaceSetup::judge(NamespaceKind::Network, Duration::from_secs(2), ok);
    assert!(result.success);
    assert_eq!(result.message, "network namespace configured");
    assert_eq!(result.duration, Duration::from_secs(2));
    assert_eq!(result.clone().message, result.message);
    assert_eq!(SetupFailure::TimedOut.message(), "namespace setup timed out");
    assert_eq!(SetupFailure::Failed("x".to_string()).message(), "x");
    let collected = ParallelSetupReport::collect(None, Some(result), None, None, Duration::from_secs(3));
    assert_eq!(collected.results.len(), 1);
    assert_eq!(collected.results[0].kind, NamespaceKind::Network);
    assert_eq!(collected.total_duration, Duration::from_secs(3));
    assert_eq!(NamespaceKind::Mount.name(), "mount");
}

use enviro_core::engine::isolation::{
    ControlWrite, Isolation, IsolationConfig, IsolationError, MappingStep, OsError,
    CLONE_NEWNET, CLONE_NEWNS, CLONE_NEWPID, CLONE_NEWUSER,
};
use enviro_core::engine::namespace_cache::NamespaceTemplate;

fn config(host_uid: u32, host_gid: u32) -> IsolationConfig {
    IsolationConfig {
        host_uid,
        host_gid,
        uid_range: 65536,
        gid_range: 65536,
        isolate_network: true,
        isolate_mount: true,
        isolate_pid: true,
    }
}

#[test]
fn test_isolation_config_default() {
    let config = IsolationConfig::default();
    assert_eq!(config.uid_range, 65536);
    assert_eq!(config.gid_range, 65536);
    assert!(config.isolate_network);
    assert!(config.isolate_mount);
    assert!(config.isolate_pid);
}

#[test]
fn test_isolation_creation() {
    let isolation = Isolation::with_defaults();
    assert_eq!(isolation.config().uid_range, 65536);
}

#[test]
fn default_identity_is_that_of_the_process() {
    let config = IsolationConfig::default();
    assert_eq!(config.host_uid, nix::unistd::getuid().as_raw());
    assert_eq!(config.host_gid, nix::unistd::getgid().as_raw());
}

#[test]
fn clone_flags_always_hold_the_user_namespace() {
    for mask in 0..8u32 {
        let mut c = config(1000, 1000);
        c.isolate_network = mask & 1 != 0;
        c.isolate_mount = mask & 2 != 0;
        c.isolate_pid = mask & 4 != 0;
        let bits = Isolation::new(c).clone_flags();
        assert_eq!(bits & CLONE_NEWUSER, CLONE_NEWUSER);
        assert_eq!(bits & CLONE_NEWNET != 0, c.isolate_network);
        assert_eq!(bits & CLONE_NEWNS != 0, c.isolate_mount);
        assert_eq!(bits & CLONE_NEWPID != 0, c.isolate_pid);
        assert_eq!(bits & !(CLONE_NEWUSER | CLONE_NEWNET | CLONE_NEWNS | CLONE_NEWPID), 0);
    }
    assert_eq!(Isolation::new(config(1, 1)).clone_flags(), 0x7002_0000);
    let mut only_user = config(1, 1);
    only_user.isolate_network = false;
    only_user.isolate_mount = false;
    only_user.isolate_pid = false;
    assert_eq!(Isolation::new(only_user).clone_flags(), 0x1000_0000);
}

#[test]
fn flags_are_those_of_the_system() {
    assert_eq!(CLONE_NEWUSER, nix::sched::CloneFlags::CLONE_NEWUSER.bits());
    assert_eq!(CLONE_NEWNET, nix::sched::CloneFlags::CLONE_NEWNET.bits());
    assert_eq!(CLONE_NEWNS, nix::sched::CloneFlags::CLONE_NEWNS.bits());
    assert_eq!(CLONE_NEWPID, nix::sched::CloneFlags::CLONE_NEWPID.bits());
}

#[test]
fn mapping_lines_are_exact() {
    assert_eq!(Isolation::mapping_line(0, 1000, 65536), "0 1000 65536\n");
    assert_eq!(Isolation::mapping_line(0, 0, 1), "0 0 1\n");
    assert_eq!(Isolation::mapping_line(10, 4294967295, 109), "10 4294967295 109\n");
}

#[test]
fn the_three_writes_come_in_order() {
    let isolation = Isolation::new(IsolationConfig {
        host_uid: 1234,
        host_gid: 567,
        uid_range: 10,
        gid_range: 20,
        isolate_network: false,
        isolate_mount: false,
        isolate_pid: false,
    });
    let mut session = isolation.after_unshare(Ok(())).unwrap();
    let mut writes = Vec::new();
    while let Some(write) = session.next_write() {
        writes.push(write);
        session.record(Ok(()));
    }
    assert_eq!(
        writes,
        vec![
            ControlWrite { path: "/proc/self/uid_map".to_string(), payload: "0 1234 10\n".to_string() },
            ControlWrite { path: "/proc/self/setgroups".to_string(), payload: "deny\n".to_string() },
            ControlWrite { path: "/proc/self/gid_map".to_string(), payload: "0 567 20\n".to_string() },
        ]
    );
    assert_eq!(session.finish(), Ok(()));
}

#[test]
fn a_failed_write_ends_the_mapping() {
    let isolation = Isolation::new(config(1000, 1000));
    for failing in 0..3 {
        let mut session = isolation.after_unshare(Ok(())).unwrap();
        let mut made = 0;
        while let Some(_write) = session.next_write() {
            if made == failing {
                session.record(Err(OsError { code: 1, detail: "Operation not permitted".to_string() }));
            } else {
                session.record(Ok(()));
            }
            made += 1;
        }
        assert_eq!(made, failing + 1);
        // Recording more changes nothing.
        session.record(Ok(()));
        assert_eq!(session.next_write(), None);
        let step = [MappingStep::UidMap, MappingStep::Setgroups, MappingStep::GidMap][failing];
        assert_eq!(
            session.finish(),
            Err(IsolationError::WriteMapping {
                step,
                error: OsError { code: 1, detail: "Operation not permitted".to_string() },
            })
        );
    }
}

#[test]
fn a_mapping_given_up_is_no_success() {
    let isolation = Isolation::new(config(1000, 1000));
    let mut session = isolation.after_unshare(Ok(())).unwrap();
    session.record(Ok(()));
    assert_eq!(session.finish(), Err(IsolationError::Incomplete { step: MappingStep::Setgroups }));
}

#[test]
fn a_refused_namespace_surfaces_the_error_of_the_system() {
    let isolation = Isolation::new(config(1000, 1000));
    match isolation.after_unshare(Err(22)) {
        Err(error) => assert_eq!(error, IsolationError::CreateNamespace { errno: 22 }),
        Ok(_) => panic!("no session after a refusal"),
    }
}

#[test]
fn unsafe_configurations_are_refused_before_anything_changes() {
    let mut empty = config(1000, 1000);
    empty.uid_range = 0;
    assert_eq!(Isolation::new(empty).check(), Err(IsolationError::EmptyRange));
    assert!(matches!(Isolation::new(empty).create_user_namespace(), Err(IsolationError::EmptyRange)));
    let mut empty_gids = config(1000, 1000);
    empty_gids.gid_range = 0;
    assert_eq!(Isolation::new(empty_gids).check(), Err(IsolationError::EmptyRange));
    assert_eq!(Isolation::new(config(0, 1000)).check(), Err(IsolationError::PrivilegedIdentity));
    assert_eq!(Isolation::new(config(1000, 0)).check(), Err(IsolationError::PrivilegedIdentity));
    assert!(matches!(
        Isolation::new(config(0, 0)).create_user_namespace(),
        Err(IsolationError::PrivilegedIdentity)
    ));
    let mut both = config(0, 0);
    both.gid_range = 0;
    assert_eq!(Isolation::new(both).check(), Err(IsolationError::EmptyRange));
    assert_eq!(Isolation::new(config(1, 1)).check(), Ok(()));
}

#[test]
fn a_template_becomes_the_same_configuration() {
    let mut template = NamespaceTemplate::new("t");
    template.host_uid = 7;
    template.host_gid = 8;
    template.uid_range = 9;
    template.gid_range = 10;
    template.isolate_mount = false;
    let config = IsolationConfig::from_template(&template);
    assert_eq!(
        config,
        IsolationConfig {
            host_uid: 7,
            host_gid: 8,
            uid_range: 9,
            gid_range: 10,
            isolate_network: true,
            isolate_mount: false,
            isolate_pid: true,
        }
    );
    assert_eq!(MappingStep::UidMap.path(), "/proc/self/uid_map");
    assert_eq!(MappingStep::UidMap.next(), Some(MappingStep::Setgroups));
    assert_eq!(MappingStep::GidMap.next(), None);
    assert_eq!(
        Isolation::write_for(&config, MappingStep::GidMap),
        ControlWrite { path: "/proc/self/gid_map".to_string(), payload: "0 8 10\n".to_string() }
    );
}

#[test]
fn the_system_grants_the_namespaces_or_says_why_not() {
    let isolation = Isolation::new(config(1000, 1000));
    match isolation.create_user_namespace() {
        Ok(session) => {
            let first = session.next_write().unwrap();
            assert_eq!(first.path, "/proc/self/uid_map");
            assert_eq!(first.payload, "0 1000 65536\n");
        }
        Err(error) => assert!(matches!(error, IsolationError::CreateNamespace { errno } if errno > 0)),
    }
}

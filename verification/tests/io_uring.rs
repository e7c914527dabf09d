use enviro_core::engine::io_uring::{
    IoOperation, IoUringConfig, IoUringError, IoUringManager, DEFAULT_QUEUE_DEPTH,
};

#[test]
fn test_default_config() {
    let config = IoUringConfig::default();
    assert_eq!(config.queue_depth, DEFAULT_QUEUE_DEPTH);
    assert!(!config.kernel_poll);
    assert_eq!(config.buffer_size, 4096);
}

#[test]
fn test_custom_config() {
    let config = IoUringConfig { queue_depth: 512, kernel_poll: true, buffer_size: 8192 };
    assert_eq!(config.queue_depth, 512);
    assert!(config.kernel_poll);
    assert_eq!(config.buffer_size, 8192);
}

#[test]
fn test_manager_creation() {
    let manager = IoUringManager::new(IoUringConfig::default())
        .expect("stub manager should be created successfully");

    assert!(!manager.is_active());
}

#[test]
fn test_config_accessor() {
    let config = IoUringConfig { queue_depth: 128, kernel_poll: false, buffer_size: 2048 };
    let manager = IoUringManager::new(config).unwrap();
    assert_eq!(manager.config().queue_depth, 128);
    assert_eq!(manager.config().buffer_size, 2048);
}

#[test]
fn test_stub_read_returns_error() {
    let manager = IoUringManager::new(IoUringConfig::default()).unwrap();
    let err = manager.read_file("/nonexistent").unwrap_err();
    assert!(
        err.to_string().contains("io_uring support is not enabled"),
        "unexpected error message: {}",
        err.to_string()
    );
}

#[test]
fn test_stub_write_returns_error() {
    let manager = IoUringManager::new(IoUringConfig::default()).unwrap();
    let err = manager.write_file("/nonexistent", b"data").unwrap_err();
    assert!(
        err.to_string().contains("io_uring support is not enabled"),
        "unexpected error message: {}",
        err.to_string()
    );
}

#[test]
fn test_stub_list_directory_returns_error() {
    let manager = IoUringManager::new(IoUringConfig::default()).unwrap();
    let err = manager.list_directory("/nonexistent").unwrap_err();
    assert!(
        err.to_string().contains("io_uring support is not enabled"),
        "unexpected error message: {}",
        err.to_string()
    );
}

#[test]
fn every_configuration_gives_an_inactive_manager() {
    for (queue_depth, buffer_size) in [(0u32, 4096usize), (5000, 4096), (256, 0), (0, 0), (1, 1)] {
        let config = IoUringConfig { queue_depth, kernel_poll: true, buffer_size };
        let manager = IoUringManager::new(config).unwrap();
        assert!(!manager.is_active());
        assert_eq!(*manager.config(), config);
    }
}

#[test]
fn what_a_ring_asks_of_a_configuration() {
    let at = |queue_depth: u32, buffer_size: usize| {
        IoUringConfig { queue_depth, kernel_poll: false, buffer_size }.validate()
    };
    assert_eq!(IoUringConfig::default().validate(), Ok(()));
    assert_eq!(at(1, 1), Ok(()));
    assert_eq!(at(4096, 1), Ok(()));
    assert_eq!(at(4097, 1), Err(IoUringError::InvalidQueueDepth));
    assert_eq!(at(5000, 4096), Err(IoUringError::InvalidQueueDepth));
    assert_eq!(at(0, 4096), Err(IoUringError::InvalidQueueDepth));
    assert_eq!(at(0, 0), Err(IoUringError::InvalidQueueDepth));
    assert_eq!(at(7, 0), Err(IoUringError::InvalidBufferSize));
    assert_eq!(IoUringError::InvalidQueueDepth.to_string(), "queue_depth must be in 1..=4096");
    assert_eq!(IoUringError::InvalidBufferSize.to_string(), "buffer_size must be > 0");
}

#[test]
fn not_enabled_messages_are_exact() {
    let manager = IoUringManager::new(IoUringConfig::default()).unwrap();
    assert_eq!(
        manager.read_file("/a/b").unwrap_err().to_string(),
        "io_uring support is not enabled: cannot read '/a/b'. \
         Enable the `io_uring` feature flag or use standard file I/O."
    );
    assert_eq!(
        manager.write_file("w", b"x").unwrap_err(),
        IoUringError::NotEnabled { operation: IoOperation::Write, path: "w".to_string() }
    );
    assert_eq!(
        manager.list_directory("/tmp").unwrap_err().to_string(),
        "io_uring support is not enabled: cannot list '/tmp'. \
         Enable the `io_uring` feature flag or use standard file I/O."
    );
    assert_eq!(IoOperation::Write.verb(), "write");
}

//! Configuration of ring-based asynchronous file I/O.
//!
//! This build has no ring behind it: the manager takes every configuration
//! as it is, is inactive, and each of its file operations reports that ring
//! I/O is not enabled and changes nothing. What a ring asks of a
//! configuration is stated on the configuration itself.

use vstd::prelude::*;
use vstd::string::*;

verus! {

/// Default number of submission queue entries.
pub const DEFAULT_QUEUE_DEPTH: u32 = 256;

/// Largest number of submission queue entries.
pub const MAX_QUEUE_DEPTH: u32 = 4096;

/// Result of a single file operation.
#[derive(Debug, Clone, PartialEq, Eq)]
pub struct IoResult {
    /// Number of bytes read or written.
    pub bytes_transferred: usize,
    /// Path of the file.
    pub path: String,
}

/// Configuration of the manager.
#[derive(Debug, Clone, Copy, PartialEq, Eq)]
pub struct IoUringConfig {
    /// Number of submission queue entries.
    pub queue_depth: u32,
    /// Let the kernel poll the submission queue.
    pub kernel_poll: bool,
    /// Size in bytes of the fixed buffers.
    pub buffer_size: usize,
}

impl IoUringConfig {
    /// What a ring asks of its configuration: the queue depth is between 1
    /// and 4096, and the buffers are not empty.
    pub open spec fn valid(&self) -> bool {
        0 < self.queue_depth <= MAX_QUEUE_DEPTH && self.buffer_size > 0
    }

    /// Whether a ring can be set up with the configuration, and why not
    /// where it cannot. The queue depth is looked at first.
    pub fn validate(&self) -> (outcome: Result<(), IoUringError>)
        ensures
            outcome is Ok == self.valid(),
            outcome matches Err(error) ==> error == (if 0 < self.queue_depth <= MAX_QUEUE_DEPTH {
                IoUringError::InvalidBufferSize
            } else {
                IoUringError::InvalidQueueDepth
            }),
    {
        if self.queue_depth == 0 || self.queue_depth > MAX_QUEUE_DEPTH {
            Err(IoUringError::InvalidQueueDepth)
        } else if self.buffer_size == 0 {
            Err(IoUringError::InvalidBufferSize)
        } else {
            Ok(())
        }
    }
}

impl Default for IoUringConfig {
    /// 256 queue entries, no kernel polling, buffers of 4096 bytes.
    fn default() -> (config: Self)
        ensures
            config.queue_depth == DEFAULT_QUEUE_DEPTH,
            !config.kernel_poll,
            config.buffer_size == 4096,
            config.valid(),
    {
        Self { queue_depth: DEFAULT_QUEUE_DEPTH, kernel_poll: false, buffer_size: 4096 }
    }
}

/// The file operations of the manager.
#[derive(Debug, Clone, Copy, PartialEq, Eq, Structural)]
pub enum IoOperation {
    Read,
    Write,
    List,
}

impl IoOperation {
    /// The verb of the operation.
    pub open spec fn spec_verb(self) -> Seq<char> {
        match self {
            IoOperation::Read => "read"@,
            IoOperation::Write => "write"@,
            IoOperation::List => "list"@,
        }
    }

    /// The verb of the operation.
    pub fn verb(&self) -> (verb: &'static str)
        ensures
            verb@ == self.spec_verb(),
    {
        match self {
            IoOperation::Read => "read",
            IoOperation::Write => "write",
            IoOperation::List => "list",
        }
    }
}

/// Why the manager refused.
#[derive(Debug, Clone, PartialEq, Eq)]
pub enum IoUringError {
    /// The queue depth is not between 1 and 4096.
    InvalidQueueDepth,
    /// The buffer size is 0.
    InvalidBufferSize,
    /// Ring I/O is not enabled, so the operation on the path was not made.
    NotEnabled { operation: IoOperation, path: String },
}

/// What an operation on a path reports while ring I/O is not enabled.
pub open spec fn not_enabled_text(operation: IoOperation, path: Seq<char>) -> Seq<char> {
    "io_uring support is not enabled: cannot "@ + operation.spec_verb() + " '"@ + path
        + "'. Enable the `io_uring` feature flag or use standard file I/O."@
}

impl IoUringError {
    /// The error in words.
    pub open spec fn spec_text(self) -> Seq<char> {
        match self {
            IoUringError::InvalidQueueDepth => "queue_depth must be in 1..=4096"@,
            IoUringError::InvalidBufferSize => "buffer_size must be > 0"@,
            IoUringError::NotEnabled { operation, path } => not_enabled_text(operation, path@),
        }
    }

    /// The error in words.
    pub fn to_string(&self) -> (text: String)
        ensures
            text@ == self.spec_text(),
    {
        match self {
            IoUringError::InvalidQueueDepth => String::from_str("queue_depth must be in 1..=4096"),
            IoUringError::InvalidBufferSize => String::from_str("buffer_size must be > 0"),
            IoUringError::NotEnabled { operation, path } => {
                let mut text = String::from_str("io_uring support is not enabled: cannot ");
                text.append(operation.verb());
                text.append(" '");
                text.append(path.as_str());
                text.append("'. Enable the `io_uring` feature flag or use standard file I/O.");
                text
            },
        }
    }
}

/// Manager of ring-based file I/O.
#[derive(Debug)]
pub struct IoUringManager {
    config: IoUringConfig,
    active: bool,
}

impl IoUringManager {
    /// The configuration of the manager.
    pub closed spec fn spec_config(&self) -> IoUringConfig {
        self.config
    }

    /// Whether a ring is behind the manager.
    pub closed spec fn spec_active(&self) -> bool {
        self.active
    }

    /// A manager for the configuration. There is no ring to set up, so
    /// every configuration is taken as it is, and the manager is inactive.
    pub fn new(config: IoUringConfig) -> (outcome: Result<Self, IoUringError>)
        ensures
            outcome matches Ok(manager) && manager.spec_config() == config && !manager.spec_active(),
    {
        Ok(Self { config, active: false })
    }

    /// Reads a file. Ring I/O is not enabled, so nothing is read.
    pub fn read_file(&self, path: &str) -> (outcome: Result<Vec<u8>, IoUringError>)
        ensures
            outcome matches Err(IoUringError::NotEnabled { operation, path: refused })
                && operation == IoOperation::Read && refused@ == path@,
    {
        Err(IoUringError::NotEnabled { operation: IoOperation::Read, path: String::from_str(path) })
    }

    /// Writes a file. Ring I/O is not enabled, so nothing is written.
    pub fn write_file(&self, path: &str, data: &[u8]) -> (outcome: Result<IoResult, IoUringError>)
        ensures
            outcome matches Err(IoUringError::NotEnabled { operation, path: refused })
                && operation == IoOperation::Write && refused@ == path@,
    {
        Err(IoUringError::NotEnabled { operation: IoOperation::Write, path: String::from_str(path) })
    }

    /// Lists a directory. Ring I/O is not enabled, so nothing is listed.
    pub fn list_directory(&self, path: &str) -> (outcome: Result<Vec<String>, IoUringError>)
        ensures
            outcome matches Err(IoUringError::NotEnabled { operation, path: refused })
                && operation == IoOperation::List && refused@ == path@,
    {
        Err(IoUringError::NotEnabled { operation: IoOperation::List, path: String::from_str(path) })
    }

    /// Whether a ring is behind the manager.
    pub fn is_active(&self) -> (active: bool)
        ensures
            active == self.spec_active(),
    {
        self.active
    }

    /// The configuration of the manager.
    pub fn config(&self) -> (config: &IoUringConfig)
        ensures
            *config == self.spec_config(),
    {
        &self.config
    }
}

} // verus!

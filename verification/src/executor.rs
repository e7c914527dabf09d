//! What an executor is handed: the execution context of a container, and
//! what it hands back.

use crate::names::NameTable;
use std::collections::HashMap;
use vstd::prelude::*;
use vstd::string::*;

verus! {

/// Resource limits of one container.
#[derive(Debug, Clone, Copy, PartialEq, Eq)]
pub struct ResourceLimits {
    /// CPU share in thousandths of a core (500 is half a core).
    pub cpu_millicores: u64,
    /// Memory limit in bytes.
    pub memory_bytes: u64,
    /// Limit on the number of processes.
    pub pid_limit: u32,
}

/// Network configuration of one container.
#[derive(Debug, Clone, PartialEq, Eq)]
pub struct NetworkConfig {
    /// Enable network isolation.
    pub isolated: bool,
    /// IP address, where the network is not isolated.
    pub ip_address: Option<String>,
    /// DNS servers.
    pub dns_servers: Vec<String>,
}

/// Runtime parameters of one container, handed to its executor.
#[derive(Debug, Clone)]
pub struct ExecutionContext {
    /// Unique container ID.
    pub container_id: String,
    /// Environment variables.
    pub env: HashMap<String, String>,
    /// Working directory.
    pub workdir: String,
    /// Resource limits.
    pub limits: ResourceLimits,
    /// Network configuration.
    pub network: NetworkConfig,
}

impl ExecutionContext {
    /// The context carries nothing of a container: no identifier and no
    /// environment.
    pub open spec fn scrubbed(&self) -> bool {
        self.container_id@.len() == 0 && self.env@ == Map::<String, String>::empty()
    }

    /// Clears what belongs to one container, the identifier and the
    /// environment, and leaves the rest as it is.
    pub fn scrub(&mut self)
        ensures
            final(self).scrubbed(),
            final(self).workdir == old(self).workdir,
            final(self).limits == old(self).limits,
            final(self).network == old(self).network,
    {
        self.container_id = String::new();
        self.env.clear();
    }
}

/// What an execution came back with.
#[derive(Debug, Clone, PartialEq, Eq)]
pub struct ExecutionResult {
    /// Exit code.
    pub exit_code: i32,
    /// Standard output.
    pub stdout: String,
    /// Standard error.
    pub stderr: String,
    /// Execution time in milliseconds.
    pub duration_ms: u64,
}

/// State of the executor that runs commands as native processes.
#[derive(Debug, Clone, Copy, PartialEq, Eq)]
pub struct NativeExecutor {
    initialized: bool,
}

impl NativeExecutor {
    /// Whether the executor is prepared.
    pub closed spec fn prepared(&self) -> bool {
        self.initialized
    }

    /// An executor that is not prepared yet.
    pub fn new() -> (executor: Self)
        ensures
            !executor.prepared(),
    {
        Self { initialized: false }
    }

    /// Prepares the executor. Preparing a prepared executor changes nothing.
    pub fn prepare(&mut self, ctx: &ExecutionContext)
        ensures
            final(self).prepared(),
    {
        self.initialized = true;
    }

    /// Releases what the executor holds. May be called any number of times.
    pub fn cleanup(&mut self, ctx: &ExecutionContext)
        ensures
            !final(self).prepared(),
    {
        self.initialized = false;
    }

    /// Whether the executor is prepared.
    pub fn is_prepared(&self) -> (prepared: bool)
        ensures
            prepared == self.prepared(),
    {
        self.initialized
    }

    /// The identifier of this type of executor.
    pub fn executor_type(&self) -> (name: &'static str)
        ensures
            name@ == "native-rust"@,
    {
        "native-rust"
    }

    /// Whether the executor can checkpoint a running process. It cannot.
    pub fn supports_checkpoint(&self) -> (supported: bool)
        ensures
            !supported,
    {
        false
    }
}

/// Registry of executors by name.
pub struct ExecutorRegistry<E> {
    executors: NameTable<E>,
}

impl<E> View for ExecutorRegistry<E> {
    type V = Map<Seq<char>, E>;

    /// The executor registered under each name.
    closed spec fn view(&self) -> Map<Seq<char>, E> {
        self.executors@
    }
}

impl<E: Clone> ExecutorRegistry<E> {
    /// The registered names, in the order in which they were registered.
    pub closed spec fn types(&self) -> Seq<Seq<char>> {
        self.executors.names()
    }

    /// No name is registered twice. Every registry that this library hands
    /// out is well formed, and every operation keeps it so.
    pub closed spec fn well_formed(&self) -> bool {
        self.executors.well_formed()
    }

    /// A registry without executors.
    pub fn new() -> (registry: Self)
        ensures
            registry.well_formed(),
            registry@ == Map::<Seq<char>, E>::empty(),
            registry.types() == Seq::<Seq<char>>::empty(),
    {
        Self { executors: NameTable::new() }
    }

    /// Registers the executor under the name. An executor registered under
    /// the name before is replaced.
    pub fn register(&mut self, name: String, executor: E)
        requires
            old(self).well_formed(),
        ensures
            final(self).well_formed(),
            final(self)@ == old(self)@.insert(name@, executor),
            final(self).types() == (if old(self)@.contains_key(name@) {
                old(self).types()
            } else {
                old(self).types().push(name@)
            }),
    {
        let _ = self.executors.insert(name, executor);
    }

    /// A clone of the executor registered under the name.
    pub fn get(&self, name: &str) -> (executor: Option<E>)
        requires
            self.well_formed(),
        ensures
            executor is Some == self@.contains_key(name@),
            executor matches Some(found) ==> cloned::<E>(self@[name@], found),
    {
        match self.executors.get(name) {
            Some(executor) => Some(executor.clone()),
            None => None,
        }
    }

    /// Takes the executor registered under the name out of the registry.
    pub fn remove(&mut self, name: &str) -> (executor: Option<E>)
        requires
            old(self).well_formed(),
        ensures
            final(self).well_formed(),
            final(self)@ == old(self)@.remove(name@),
            executor == (if old(self)@.contains_key(name@) {
                Some(old(self)@[name@])
            } else {
                None
            }),
    {
        self.executors.remove(name)
    }

    /// The registered names, in the order in which they were registered.
    pub fn list_types(&self) -> (names: Vec<String>)
        requires
            self.well_formed(),
        ensures
            names@.map_values(|name: String| name@) == self.types(),
    {
        self.executors.keys()
    }
}

impl<E: Clone> Default for ExecutorRegistry<E> {
    fn default() -> (registry: Self)
        ensures
            registry.well_formed(),
            registry@ == Map::<Seq<char>, E>::empty(),
    {
        Self::new()
    }
}

} // verus!

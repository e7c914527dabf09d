//! Startup fast path of a container engine: isolation, namespace template
//! caching, parallel namespace bring-up and batched resource limits.

pub mod clock;
pub mod engine;
pub mod executor;
pub mod ffi;
pub mod memory;
pub mod names;
pub mod perf;
pub mod plugin;
pub mod runtime;
pub mod text;

pub use engine::buffer::{BufferPool, ZeroCopyBuffer};
pub use engine::isolation::Isolation;
pub use engine::io_uring::IoUringManager;
pub use engine::lazy_init::{LazyResource, LazyResourcePool};
pub use engine::memory_pool::ContextPool;
pub use engine::namespace_cache::{NamespaceCache, NamespaceTemplate};
pub use engine::parallel_setup::{ParallelNamespaceSetup, ParallelSetupReport, SetupResult};
pub use engine::resource_limits::{OptimizedResourceLimits, ResourceLimitBatch, ResourceProfile};
pub use runtime::{ContainerHandle, FastRuntime, FastStartConfig};

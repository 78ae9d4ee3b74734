//! Versioned task handlers.

pub mod context;
pub mod local;
pub mod registry;
pub mod registry_laws;

pub use context::TaskContext;
pub use local::LocalTaskHandler;
pub use registry::RegistryError;
pub use registry::TaskHandlerDescriptor;
pub use registry::TaskHandlerRegistry;
pub use registry::TaskRunOutcome;
pub use registry::TaskRunResult;

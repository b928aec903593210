//! A native call dispatcher: a fixed-capacity call context for composing
//! arguments to functions of an external runtime that are known only by
//! numeric identifier, and a hash-keyed registry that resolves a stable
//! identifier to the handler performing the native's work.

pub mod context;
pub mod dispatch;
pub mod registry;
pub mod slot;

pub use context::create_invoker_context;
pub use context::InvokerContext;
pub use dispatch::init;
pub use dispatch::AddArgsHandler;
pub use dispatch::ConstResultHandler;
pub use dispatch::NativeHandler;
pub use registry::NativeRegistry;
pub use registry::RegistrationSource;
pub use registry::RegistrationTable;
pub use slot::SlotValue;

//! One-way notification protocol for a runtime-discovery process.
//!
//! A background discovery process reports its findings (environment-manager
//! tools, runtime installations) and log events to a host process over a byte
//! stream, as length-prefixed JSON-RPC-style notifications. This crate holds
//! the immutable data model, the JSON serialization of each notification, the
//! `Content-Length` framing, and the dispatcher that emits framed messages.

pub mod dispatch;
pub mod frame;
pub mod json;
pub mod model;
pub mod parse;
pub mod wire;

pub use dispatch::create_dispatcher;
pub use dispatch::JsonRpcDispatcher;
pub use dispatch::MessageDispatcher;
pub use model::EnvManager;
pub use model::EnvManagerMessage;
pub use model::EnvManagerMessageV;
pub use model::EnvManagerType;
pub use model::EnvManagerV;
pub use model::ExitMessage;
pub use model::ExitMessageV;
pub use model::LogEvent;
pub use model::LogEventV;
pub use model::LogLevel;
pub use model::LogMessage;
pub use model::LogMessageV;
pub use model::PythonEnvironment;
pub use model::PythonEnvironmentCategory;
pub use model::PythonEnvironmentMessage;
pub use model::PythonEnvironmentMessageV;
pub use model::PythonEnvironmentV;

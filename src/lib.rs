//! Contract types and dispatch primitives for event-driven state-machine
//! modules: byte messages, handler results, port declarations, per-invocation
//! emission and logging, and an in-process router that fans emissions out to
//! subscribed input handlers.
pub mod button_driver;
pub mod codec;
pub mod context;
pub mod host;
pub mod native_module;
pub mod passthrough;
pub mod ports;
pub mod result;
pub mod router;

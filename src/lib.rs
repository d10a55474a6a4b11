//! Control plane for a fleet of sonar devices: a registry of live devices,
//! the decisions that bring each one into streaming, device discovery, and the
//! filtered fan-out of events to websocket subscribers.
pub mod baud;
pub mod cli;
pub mod continuous;
pub mod device;
pub mod discovery;
pub mod error;
pub mod manager;
pub mod properties;
pub mod server;
pub mod source;
pub mod stepping;
pub mod websocket;

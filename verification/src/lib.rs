//! Command/telemetry core of a small-satellite on-board computer.
//!
//! The library covers the shared command-frame protocol, the subsystem
//! registry and dispatch core, the pure state-transition logic of the
//! subsystems, the decision logic of the telemetry-ingestion loop, and the
//! name handling of the local IPC command bridge.  The embedding process
//! supplies the transports (network stream, named pipe, durable sink) and
//! feeds bytes in and out of these functions.

pub mod codec;
pub mod component;
pub mod dfgm;
pub mod ipc;
pub mod server;

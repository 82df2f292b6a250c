//! The agent: usage timers, enforcement and messages on one machine.

pub mod action;
pub mod agenda;
pub mod control;
pub mod control_laws;
pub mod enforce;
pub mod heartbeat;
pub mod heartbeat_laws;
pub mod host;
pub mod host_laws;
pub mod session;
pub mod session_laws;
pub mod windows;

//! Supervision of a bundled companion backend process.
//!
//! The library decides; the host application acts. It holds the rules for
//! when supervision runs, how the companion executable is invoked, how each
//! event of the running process becomes a log entry, and the state machine
//! that sequences directory provisioning, spawning and draining.

pub mod command;
pub mod event;
pub mod relay;
pub mod supervisor;
pub mod text;
pub mod trace;

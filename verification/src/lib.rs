//! Mirrors the live status of a desktop audio application to a remote
//! presence service: a background loop polls the application, debounces the
//! computed status string, and pushes genuine transitions through a single
//! publisher connection.
//!
//! This crate holds the decision logic of that loop — status computation,
//! debounce, edge-triggered clearing, and the start/stop lifecycle — as
//! verified functions over plain values. The operating-system probes, the
//! IPC publisher and the background thread live outside and drive these
//! functions.

pub mod laws;
pub mod logic;
pub mod state;
pub mod utils;

//! A small host-telemetry library: it assembles CPU, memory and optional GPU
//! readings, taken as plain numeric samples, into a well-formed snapshot
//! record, and resolves the server's startup configuration.
//!
//! Percentages are carried as integers in hundredths of a percent, so that
//! every derived figure has an exact statement.

pub mod config;
pub mod stats;

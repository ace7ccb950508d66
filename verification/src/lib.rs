//! Core logic of a small HTTP load generator.
//!
//! The generator fans out a fixed number of concurrent workers, each of
//! which issues requests back to back until a shared elapsed-seconds
//! counter passes the configured duration, and then reduces the
//! per-worker tallies into one aggregate report.
//!
//! This crate holds everything that decides or computes: flag parsing,
//! the clock counter, the per-iteration worker decisions, the final
//! aggregation, and a deterministic model of a whole run. The
//! surrounding binary supplies the actual I/O: it reads the process
//! arguments, spawns the ticker thread and the workers, sends the HTTP
//! requests, and prints the report.

pub mod aggregate;
pub mod clock;
pub mod config;
pub mod sim;
pub mod worker;

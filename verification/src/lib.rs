//! Planning and bookkeeping for a cluster diagnostics collector.
//!
//! The library decides which collection tasks a run consists of, what becomes
//! of each task's output, when a phase of the run is over and in which order
//! the final archive is produced. Carrying the decisions out (spawning
//! processes, talking to the cluster, touching files) is left to the caller.

pub mod archive;
pub mod catalog;
pub mod config;
pub mod executor;
pub mod layout;
pub mod outcome;
pub mod output;
pub mod phase;
pub mod plan;
pub mod releases;
pub mod resolve;
pub mod routing;
pub mod schedule;
pub mod services;
pub mod session;
pub mod task;
pub mod text;

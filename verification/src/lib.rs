//! Preprocessing runner for document builds: a project manifest declares
//! jobs, each job queries structured metadata out of a source document via an
//! external query tool and then acts on the result, for example by
//! synchronizing remote resources to disk.
//!
//! This crate holds the engine's logic: the query model and builder, the
//! construction of the query tool's command line, the decoding of the
//! manifest's raw configuration values, the per-resource synchronization
//! decision, and the aggregation of per-job outcomes. Everything that touches
//! a process, the network or the filesystem lives outside, hands plain values
//! in, and takes plain values back.

pub mod config;
pub mod preprocessor;
pub mod query;
pub mod scheduler;

//! Configuration and assembly of a read-only state backend for a
//! contract-execution engine: a fork descriptor, a two-variant backend
//! (blank local state or a fetch-through cache over a remote node pinned
//! at a block), and a builder that wires configuration into an executor.

pub mod backend;
pub mod builder;
pub mod environment;
pub mod fork;
pub mod mem_cache;
pub mod remote;
pub mod types;

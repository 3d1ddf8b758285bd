//! Verified core of a vanity-address search tool.
//!
//! The library holds the logic that decides what the search does: prefix
//! matching, configuration validation, the shared stop flag and operation
//! counter models, the worker batch step, and the throughput computation.
//! Key generation, threads and timers live outside the library.

pub mod config;
pub mod coordinator;
pub mod counter;
pub mod flag;
pub mod stats;
pub mod target;
pub mod worker;

pub use target::prefix_matches;
pub use target::SearchTarget;
pub use config::ConfigError;

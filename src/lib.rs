//! Lifecycle management for one embedded Lassie retrieval daemon per process.
//!
//! The library holds the decisions: translating the user's configuration into
//! the fixed record handed across the foreign boundary, the single-instance
//! slot and its start/stop transitions, and the handle given to callers.
//! Performing the foreign calls and running the background thread is left to
//! the code that drives these decisions.
pub mod config;
pub mod duration;
pub mod error;
pub mod lifecycle;
pub mod text;

pub use config::{translate_config, BoundaryConfig, DaemonConfig};
pub use duration::{try_convert_duration_to_go_type, Duration};
pub use error::StartError;
pub use lifecycle::{Daemon, DaemonSlot};

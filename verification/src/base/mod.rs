//! Core primitives: the error type and the runtime configuration.
pub mod config;
pub mod error;

pub use error::{AetherError, Result};

//! Storage: the error type of the storage layer and the local filesystem
//! store's path rules.
pub mod error;
pub mod local;

pub use error::{StorageError, StorageResult};
pub use local::LocalStorage;

//! Verified core of AetherDB: the segment metadata model and its validation
//! rules, the storage error and path rules, and the runtime configuration.
pub mod base;
pub mod cli;
pub mod codec;
pub mod storage;
pub mod text;

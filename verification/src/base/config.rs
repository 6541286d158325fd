//! Runtime configuration. Every field has a default, so the server starts
//! with no configuration during development.
use vstd::prelude::*;

verus! {

/// Top-level AetherDB configuration.
#[derive(Debug, Clone)]
pub struct Config {
    /// Object storage configuration.
    pub storage: StorageConfig,
    /// NVMe cache configuration.
    pub cache: CacheConfig,
    /// HTTP server configuration.
    pub server: ServerConfig,
}

/// Object storage configuration.
#[derive(Debug, Clone)]
pub struct StorageConfig {
    /// Object storage bucket name.
    pub bucket: String,
    /// Object storage endpoint URL (none for the provider's default).
    pub endpoint: Option<String>,
    /// Key prefix inside the bucket for all AetherDB objects.
    pub prefix: String,
}

/// NVMe cache configuration.
#[derive(Debug, Clone)]
pub struct CacheConfig {
    /// Local directory for the NVMe cache.
    pub dir: String,
    /// Maximum cache size in bytes.
    pub max_bytes: u64,
}

/// HTTP server configuration.
#[derive(Debug, Clone)]
pub struct ServerConfig {
    /// Address to bind the HTTP server.
    pub bind: String,
}

/// The default object storage settings: bucket `aetherdb`, the provider's
/// default endpoint, prefix `data/`.
pub open spec fn is_default_storage(c: StorageConfig) -> bool {
    &&& c.bucket@ == "aetherdb"@
    &&& c.endpoint is None
    &&& c.prefix@ == "data/"@
}

/// The default cache settings: `/tmp/aetherdb-cache`, at most 10 GiB.
pub open spec fn is_default_cache(c: CacheConfig) -> bool {
    &&& c.dir@ == "/tmp/aetherdb-cache"@
    &&& c.max_bytes == 10 * 1024 * 1024 * 1024
}

/// The default server settings: bound to `0.0.0.0:7700`.
pub open spec fn is_default_server(c: ServerConfig) -> bool {
    c.bind@ == "0.0.0.0:7700"@
}

impl Default for StorageConfig {
    fn default() -> (c: Self)
        ensures
            is_default_storage(c),
    {
        StorageConfig {
            bucket: String::from_str("aetherdb"),
            endpoint: None,
            prefix: String::from_str("data/"),
        }
    }
}

impl Default for CacheConfig {
    fn default() -> (c: Self)
        ensures
            is_default_cache(c),
    {
        CacheConfig { dir: String::from_str("/tmp/aetherdb-cache"), max_bytes: 10 * 1024 * 1024 * 1024 }
    }
}

impl Default for ServerConfig {
    fn default() -> (c: Self)
        ensures
            is_default_server(c),
    {
        ServerConfig { bind: String::from_str("0.0.0.0:7700") }
    }
}

impl Default for Config {
    fn default() -> (c: Self)
        ensures
            is_default_storage(c.storage),
            is_default_cache(c.cache),
            is_default_server(c.server),
    {
        Config {
            storage: StorageConfig::default(),
            cache: CacheConfig::default(),
            server: ServerConfig::default(),
        }
    }
}

} // verus!

use aetherdb::base::config::{CacheConfig, Config, ServerConfig, StorageConfig};
use aetherdb::base::AetherError;
use aetherdb::cli::{Cli, Command};
use aetherdb::text::{decimal_string, is_whitespace_char};

#[test]
fn config_defaults() {
    let config = Config::default();
    assert_eq!(config.storage.bucket, "aetherdb");
    assert_eq!(config.storage.endpoint, None);
    assert_eq!(config.storage.prefix, "data/");
    assert_eq!(config.cache.dir, "/tmp/aetherdb-cache");
    assert_eq!(config.cache.max_bytes, 10_737_418_240);
    assert_eq!(config.server.bind, "0.0.0.0:7700");
    assert_eq!(StorageConfig::default().bucket, "aetherdb");
    assert_eq!(CacheConfig::default().max_bytes, 10 * 1024 * 1024 * 1024);
    assert_eq!(ServerConfig::default().bind, "0.0.0.0:7700");
}

#[test]
fn info_command_reports_project_identity() {
    let cli = Cli { command: Command::Info };
    let output = cli.command.output("0.1.0");
    assert!(output.stdout.contains("AetherDB v"));
    assert!(output.stdout.contains("object storage"));
    assert_eq!(
        output.stdout,
        "AetherDB v0.1.0\nText and vector search database backed by object storage.\n"
    );
    assert!(output.stderr.is_empty());

    let serve = Command::Serve { config: Some(String::from("config.json")) }.output("0.1.0");
    assert!(serve.stdout.is_empty());
    assert_eq!(serve.stderr, "server not yet implemented \u{2014} coming in a later milestone\n");
}

#[test]
fn aether_error_messages_carry_their_label() {
    assert_eq!(AetherError::Codec(String::from("x")).to_string(), "codec error: x");
    assert_eq!(AetherError::Storage(String::from("x")).to_string(), "storage error: x");
    assert_eq!(AetherError::Catalog(String::from("x")).to_string(), "catalog error: x");
    assert_eq!(AetherError::Index(String::from("x")).to_string(), "index error: x");
    assert_eq!(AetherError::Query(String::from("x")).to_string(), "query error: x");
    assert_eq!(AetherError::Engine(String::from("x")).to_string(), "engine error: x");
    assert_eq!(AetherError::InvalidArgument(String::from("x")).to_string(), "invalid argument: x");
    assert_eq!(AetherError::NotFound(String::from("x")).to_string(), "not found: x");
    let io = std::io::Error::new(std::io::ErrorKind::Other, "disk on fire");
    assert_eq!(AetherError::Io(io).to_string(), "io error: disk on fire");
    let json = serde_json::from_str::<u32>("x").unwrap_err();
    let text = json.to_string();
    assert_eq!(AetherError::Serde(json).to_string(), format!("serialization error: {}", text));
}

#[test]
fn decimal_rendering_matches_display() {
    for n in [0u64, 7, 10, 99, 100, 12345, u32::MAX as u64, u64::MAX] {
        assert_eq!(decimal_string(n), n.to_string());
    }
}

#[test]
fn whitespace_matches_char_is_whitespace() {
    for v in 0u32..0x110000 {
        if let Some(c) = char::from_u32(v) {
            assert_eq!(is_whitespace_char(c), c.is_whitespace(), "U+{:04X}", v);
        }
    }
}

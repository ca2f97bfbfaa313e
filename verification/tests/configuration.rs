use dsm_exchange_node::config::{
    Config, ConfigError, ConfigFile, HttpConfig, IdentityConfig, NodeConfig, StorageConfig,
};

fn usable() -> Config {
    Config {
        node: NodeConfig { id: "exchange-1".to_string(), network: "test".to_string() },
        storage: StorageConfig {
            endpoints: vec!["http://a".to_string(), "http://b".to_string(), "http://c".to_string()],
            env_config_path: None,
        },
        identity: IdentityConfig {
            data_dir: "/var/lib/node".to_string(),
            mnemonic_path: "/var/lib/node/mnemonic".to_string(),
            identity_state_path: None,
        },
        http: HttpConfig { listen: "0.0.0.0:9090".to_string() },
    }
}

#[test]
fn usable_configuration_loads() {
    let loaded = Config::load("config.toml", ConfigFile::Parsed(usable())).unwrap();
    assert_eq!(loaded.node.id, "exchange-1");
    assert_eq!(loaded.storage.endpoints.len(), 3);
    assert!(usable().validate().is_ok());
}

#[test]
fn unreadable_file_is_reported() {
    let e = Config::load("config.toml", ConfigFile::Unreadable("gone".to_string())).unwrap_err();
    assert_eq!(e.message(), "cannot read config file config.toml: gone");
}

#[test]
fn malformed_file_is_reported() {
    let e = Config::load("c.toml", ConfigFile::Malformed("line 3".to_string())).unwrap_err();
    assert_eq!(e.message(), "config parse error in c.toml: line 3");
}

#[test]
fn empty_node_id_is_refused() {
    let mut c = usable();
    c.node.id = String::new();
    let e = c.validate().unwrap_err();
    assert_eq!(e, ConfigError::EmptyNodeId);
    assert_eq!(e.message(), "node.id must not be empty");
}

#[test]
fn two_endpoints_are_too_few() {
    let mut c = usable();
    c.storage.endpoints.pop();
    let e = Config::load("c.toml", ConfigFile::Parsed(c)).unwrap_err();
    assert_eq!(
        e.message(),
        "storage.endpoints must have at least 3 entries for K=3 replication (got 2)"
    );
}

#[test]
fn empty_data_dir_is_refused() {
    let mut c = usable();
    c.identity.data_dir = String::new();
    assert_eq!(c.validate().unwrap_err().message(), "identity.data_dir must not be empty");
}

#[test]
fn empty_mnemonic_path_is_refused() {
    let mut c = usable();
    c.identity.mnemonic_path = String::new();
    assert_eq!(c.validate().unwrap_err().message(), "identity.mnemonic_path must not be empty");
}

#[test]
fn first_broken_rule_is_reported() {
    let mut c = usable();
    c.node.id = String::new();
    c.storage.endpoints.clear();
    c.identity.data_dir = String::new();
    assert_eq!(c.validate(), Err(ConfigError::EmptyNodeId));
    c.node.id = "x".to_string();
    assert_eq!(c.validate(), Err(ConfigError::TooFewEndpoints { given: 0 }));
}

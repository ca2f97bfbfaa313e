//! The node's configuration and the rules that it must meet.
use vstd::prelude::*;

use crate::text::{decimal, decimal_text, joined3};

verus! {

/// The smallest number of storage nodes that three-fold replication can do with.
pub const MIN_ENDPOINTS: usize = 3;

#[derive(Debug, Clone)]
pub struct Config {
    pub node: NodeConfig,
    pub storage: StorageConfig,
    pub identity: IdentityConfig,
    pub http: HttpConfig,
}

#[derive(Debug, Clone)]
pub struct NodeConfig {
    /// Human-readable label of this exchange node, also its SDK node id.
    pub id: String,
    /// Network: "main" or "test".
    pub network: String,
}

#[derive(Debug, Clone)]
pub struct StorageConfig {
    /// Base URLs of the DSM storage nodes.
    pub endpoints: Vec<String>,
    /// Path of the storage SDK's own environment file; without it the SDK uses its built-in
    /// node list.
    pub env_config_path: Option<String>,
}

#[derive(Debug, Clone)]
pub struct IdentityConfig {
    /// Base directory of everything that the SDK persists.
    pub data_dir: String,
    /// Path of the plain-text mnemonic backup, written once on first boot.
    pub mnemonic_path: String,
    /// Ignored; accepted so that older files still load.
    pub identity_state_path: Option<String>,
}

#[derive(Debug, Clone)]
pub struct HttpConfig {
    /// Address to listen on, such as "0.0.0.0:9090".
    pub listen: String,
}

/// Why a configuration cannot be used.
#[derive(Debug, PartialEq, Eq)]
pub enum ConfigError {
    Unreadable { path: String, reason: String },
    Malformed { path: String, reason: String },
    EmptyNodeId,
    TooFewEndpoints { given: usize },
    EmptyDataDir,
    EmptyMnemonicPath,
}

impl ConfigError {
    /// The text that reports the error.
    pub open spec fn text(self) -> Seq<char> {
        match self {
            ConfigError::Unreadable { path, reason } => "cannot read config file "@ + path@ + ": "@
                + reason@,
            ConfigError::Malformed { path, reason } => "config parse error in "@ + path@ + ": "@
                + reason@,
            ConfigError::EmptyNodeId => "node.id must not be empty"@,
            ConfigError::TooFewEndpoints { given } =>
                "storage.endpoints must have at least 3 entries for K=3 replication (got "@
                + decimal(given as nat) + ")"@,
            ConfigError::EmptyDataDir => "identity.data_dir must not be empty"@,
            ConfigError::EmptyMnemonicPath => "identity.mnemonic_path must not be empty"@,
        }
    }

    /// Reports the error in words.
    pub fn message(&self) -> (r: String)
        ensures
            r@ == self.text(),
    {
        match self {
            ConfigError::Unreadable { path, reason } => {
                let mut r = joined3("cannot read config file ", path.as_str(), ": ");
                r.append(reason.as_str());
                r
            },
            ConfigError::Malformed { path, reason } => {
                let mut r = joined3("config parse error in ", path.as_str(), ": ");
                r.append(reason.as_str());
                r
            },
            ConfigError::EmptyNodeId => "node.id must not be empty".to_owned(),
            ConfigError::TooFewEndpoints { given } => joined3(
                "storage.endpoints must have at least 3 entries for K=3 replication (got ",
                decimal_text(*given as u64).as_str(),
                ")",
            ),
            ConfigError::EmptyDataDir => "identity.data_dir must not be empty".to_owned(),
            ConfigError::EmptyMnemonicPath => "identity.mnemonic_path must not be empty".to_owned(),
        }
    }
}

/// What became of the configuration file on disk.
#[derive(Debug)]
pub enum ConfigFile {
    /// It could not be read, for this reason.
    Unreadable(String),
    /// It was read, but its contents are not a configuration, for this reason.
    Malformed(String),
    /// It holds this configuration.
    Parsed(Config),
}

impl Config {
    /// Whether the node can run with this configuration.
    pub open spec fn valid(self) -> bool {
        &&& self.node.id@.len() > 0
        &&& self.storage.endpoints@.len() >= MIN_ENDPOINTS
        &&& self.identity.data_dir@.len() > 0
        &&& self.identity.mnemonic_path@.len() > 0
    }

    /// The first rule that this configuration breaks, if any.
    pub open spec fn first_fault(self) -> Option<ConfigError> {
        if self.node.id@.len() == 0 {
            Some(ConfigError::EmptyNodeId)
        } else if self.storage.endpoints@.len() < MIN_ENDPOINTS {
            Some(ConfigError::TooFewEndpoints { given: self.storage.endpoints.len() })
        } else if self.identity.data_dir@.len() == 0 {
            Some(ConfigError::EmptyDataDir)
        } else if self.identity.mnemonic_path@.len() == 0 {
            Some(ConfigError::EmptyMnemonicPath)
        } else {
            None
        }
    }

    /// Checks the rules that a usable configuration meets, and reports the first one broken.
    pub fn validate(&self) -> (r: Result<(), ConfigError>)
        ensures
            r matches Ok(_) <==> self.valid(),
            r matches Err(e) ==> Some(e) == self.first_fault(),
    {
        if self.node.id.as_str().is_empty() {
            return Err(ConfigError::EmptyNodeId);
        }
        if self.storage.endpoints.len() < MIN_ENDPOINTS {
            return Err(ConfigError::TooFewEndpoints { given: self.storage.endpoints.len() });
        }
        if self.identity.data_dir.as_str().is_empty() {
            return Err(ConfigError::EmptyDataDir);
        }
        if self.identity.mnemonic_path.as_str().is_empty() {
            return Err(ConfigError::EmptyMnemonicPath);
        }
        Ok(())
    }

    /// Settles on the configuration to run with, given what became of the file at `path`.
    pub fn load(path: &str, file: ConfigFile) -> (r: Result<Config, ConfigError>)
        ensures
            match file {
                ConfigFile::Unreadable(why) => r matches Err(
                    ConfigError::Unreadable { path: p, reason },
                ) && p@ == path@ && reason@ == why@,
                ConfigFile::Malformed(why) => r matches Err(
                    ConfigError::Malformed { path: p, reason },
                ) && p@ == path@ && reason@ == why@,
                ConfigFile::Parsed(config) => match r {
                    Ok(c) => config.valid() && c == config,
                    Err(e) => !config.valid() && Some(e) == config.first_fault(),
                },
            },
            r matches Ok(c) ==> c.valid(),
    {
        match file {
            ConfigFile::Unreadable(reason) => Err(
                ConfigError::Unreadable { path: path.to_owned(), reason },
            ),
            ConfigFile::Malformed(reason) => Err(
                ConfigError::Malformed { path: path.to_owned(), reason },
            ),
            ConfigFile::Parsed(config) => match config.validate() {
                Ok(_) => Ok(config),
                Err(e) => Err(e),
            },
        }
    }
}

/// A configuration is usable exactly when it breaks none of the rules.
pub proof fn valid_iff_faultless(config: Config)
    ensures
        config.valid() <==> config.first_fault() is None,
{
}

/// A configuration is usable exactly when the node has a name, there are at least three storage
/// nodes, and both paths are given.
pub proof fn three_storage_nodes_are_needed(config: Config)
    ensures
        config.valid() <==> config.node.id@.len() >= 1 && config.storage.endpoints@.len() >= 3
            && config.identity.data_dir@.len() >= 1 && config.identity.mnemonic_path@.len() >= 1,
{
}

/// The fault that is reported is one that the configuration has, and the rules before it are met.
pub proof fn reported_fault_is_the_first(config: Config)
    ensures
        config.first_fault() matches Some(fault) ==> match fault {
            ConfigError::EmptyNodeId => config.node.id@.len() == 0,
            ConfigError::TooFewEndpoints { given } => config.node.id@.len() > 0 && given
                == config.storage.endpoints@.len() && given < 3,
            ConfigError::EmptyDataDir => config.node.id@.len() > 0
                && config.storage.endpoints@.len() >= 3 && config.identity.data_dir@.len() == 0,
            ConfigError::EmptyMnemonicPath => config.node.id@.len() > 0
                && config.storage.endpoints@.len() >= 3 && config.identity.data_dir@.len() > 0
                && config.identity.mnemonic_path@.len() == 0,
            _ => false,
        },
{
}

/// The report on a file names the file and passes on the reason; the report on the storage nodes
/// says how many are given.
pub proof fn report_names_the_cause(path: String, reason: String, given: usize)
    ensures
        ("cannot read config file "@ + path@).is_prefix_of(
            (ConfigError::Unreadable { path, reason }).text(),
        ),
        reason@.is_suffix_of((ConfigError::Unreadable { path, reason }).text()),
        ("config parse error in "@ + path@).is_prefix_of(
            (ConfigError::Malformed { path, reason }).text(),
        ),
        reason@.is_suffix_of((ConfigError::Malformed { path, reason }).text()),
        (decimal(given as nat) + ")"@).is_suffix_of(
            (ConfigError::TooFewEndpoints { given }).text(),
        ),
{
    let unreadable = (ConfigError::Unreadable { path, reason }).text();
    assert("cannot read config file "@ + path@ =~= unreadable.subrange(
        0,
        ("cannot read config file "@ + path@).len() as int,
    ));
    assert(reason@ =~= unreadable.subrange(
        unreadable.len() - reason@.len(),
        unreadable.len() as int,
    ));
    let malformed = (ConfigError::Malformed { path, reason }).text();
    assert("config parse error in "@ + path@ =~= malformed.subrange(
        0,
        ("config parse error in "@ + path@).len() as int,
    ));
    assert(reason@ =~= malformed.subrange(malformed.len() - reason@.len(), malformed.len() as int));
    let few = (ConfigError::TooFewEndpoints { given }).text();
    let end = decimal(given as nat) + ")"@;
    assert(end =~= few.subrange(few.len() - end.len(), few.len() as int));
}

} // verus!

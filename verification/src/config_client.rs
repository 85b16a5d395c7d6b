//! Where the exporter's configuration file lies.
//!
//! Reading and decoding the file is the caller's part; what is decided here is
//! which file it is.

use vstd::prelude::*;
use crate::error::ConfigError;

verus! {

/// The file that is read where the environment names none.
pub const DEFAULT_CONFIG_PATH: &'static str = "/configs/config.yaml";

/// The settings of the configuration client.
#[derive(Debug, PartialEq, Eq)]
pub struct ConfigClientConfig {
    pub config_path: String,
}

/// The path that is read, given what the environment holds under `CONFIG_PATH`.
pub open spec fn config_path_spec(value: Option<String>) -> Seq<char> {
    match value {
        Some(path) => path@,
        None => DEFAULT_CONFIG_PATH@,
    }
}

impl ConfigClientConfig {
    /// Settings that name `config_path`. Every path is accepted.
    pub fn new(config_path: String) -> (config: Result<Self, ConfigError>)
        ensures
            config == Ok::<Self, ConfigError>(ConfigClientConfig { config_path }),
    {
        Ok(ConfigClientConfig { config_path })
    }

    /// Settings from the value of `CONFIG_PATH` in the environment, `None` where
    /// it is not set: the path it names, or `DEFAULT_CONFIG_PATH`.
    pub fn from_env(config_path: Option<String>) -> (config: Result<Self, ConfigError>)
        ensures
            config is Ok,
            config.unwrap().config_path@ == config_path_spec(config_path),
    {
        match config_path {
            Some(path) => Self::new(path),
            None => Self::new(DEFAULT_CONFIG_PATH.to_owned()),
        }
    }
}

/// The configuration client.
#[derive(Debug, PartialEq, Eq)]
pub struct ConfigClient {
    pub config: ConfigClientConfig,
}

impl ConfigClient {
    pub fn new(config: ConfigClientConfig) -> (client: Self)
        ensures
            client.config == config,
    {
        ConfigClient { config }
    }

    /// The path of the file to read.
    pub fn config_path(&self) -> (path: &str)
        ensures
            path@ == self.config.config_path@,
    {
        self.config.config_path.as_str()
    }
}

} // verus!

//! Where the last measurement is kept between runs.
//!
//! The measurement is read from a file and stored in a config map of the
//! cluster, under the name of that file. Reading, storing and encoding are the
//! caller's; the names are decided here.

use vstd::prelude::*;

verus! {

/// The file that holds the last measurement where the environment names none.
pub const DEFAULT_MEASUREMENT_FILE_PATH: &'static str = "/configs/last-measurement.yaml";

/// The config map that holds the last measurement where the environment names
/// none.
pub const DEFAULT_CONFIGMAP_NAME: &'static str = "jarvis-p1-exporter";

/// Why the state could not be stored.
#[derive(Clone, Copy, Debug, PartialEq, Eq, Structural)]
pub enum StateError {
    /// The path of the measurement file names no file.
    NoFileName,
}

/// The settings of the state client.
#[derive(Debug, PartialEq, Eq)]
pub struct StateClientConfig {
    pub measurement_file_path: String,
    pub measurement_file_configmap_name: String,
    pub current_namespace: String,
}

/// A `StateClientConfig` as contracts see it.
pub struct StateClientConfigView {
    pub measurement_file_path: Seq<char>,
    pub measurement_file_configmap_name: Seq<char>,
    pub current_namespace: Seq<char>,
}

impl View for StateClientConfig {
    type V = StateClientConfigView;

    open spec fn view(&self) -> StateClientConfigView {
        StateClientConfigView {
            measurement_file_path: self.measurement_file_path@,
            measurement_file_configmap_name: self.measurement_file_configmap_name@,
            current_namespace: self.current_namespace@,
        }
    }
}

/// The settings that the environment asks for.
pub open spec fn state_settings_spec(
    measurement_file_path: Option<String>,
    measurement_file_configmap_name: Option<String>,
    current_namespace: String,
) -> StateClientConfigView {
    StateClientConfigView {
        measurement_file_path: match measurement_file_path {
            Some(path) => path@,
            None => DEFAULT_MEASUREMENT_FILE_PATH@,
        },
        measurement_file_configmap_name: match measurement_file_configmap_name {
            Some(name) => name@,
            None => DEFAULT_CONFIGMAP_NAME@,
        },
        current_namespace: current_namespace@,
    }
}

impl StateClientConfig {
    /// Settings with the given values. All values are accepted.
    pub fn new(
        measurement_file_path: String,
        measurement_file_configmap_name: String,
        current_namespace: String,
    ) -> (config: Result<Self, StateError>)
        ensures
            config == Ok::<Self, StateError>(
                StateClientConfig {
                    measurement_file_path,
                    measurement_file_configmap_name,
                    current_namespace,
                },
            ),
    {
        Ok(
            StateClientConfig {
                measurement_file_path,
                measurement_file_configmap_name,
                current_namespace,
            },
        )
    }

    /// The settings that the environment asks for, given the values of
    /// `MEASUREMENT_FILE_PATH` and `MEASUREMENT_FILE_CONFIG_MAP_NAME`, each `None`
    /// where it is not set, and the namespace that the pod runs in.
    pub fn from_env(
        measurement_file_path: Option<String>,
        measurement_file_configmap_name: Option<String>,
        current_namespace: String,
    ) -> (config: Result<Self, StateError>)
        ensures
            config is Ok,
            config.unwrap()@ == state_settings_spec(
                measurement_file_path,
                measurement_file_configmap_name,
                current_namespace,
            ),
    {
        let path = match measurement_file_path {
            Some(path) => path,
            None => DEFAULT_MEASUREMENT_FILE_PATH.to_owned(),
        };
        let name = match measurement_file_configmap_name {
            Some(name) => name,
            None => DEFAULT_CONFIGMAP_NAME.to_owned(),
        };
        Self::new(path, name, current_namespace)
    }
}

/// The final component of `path`, as `std::path::Path::file_name` gives it:
/// `None` where the path has none, as where it ends in `..` or is the root.
/// Nothing is claimed of the component: what separates components depends on the
/// platform.
#[verifier::external_body]
fn final_component(path: &str) -> (name: Option<String>) {
    match std::path::Path::new(path).file_name() {
        Some(name) => match name.to_str() {
            Some(name) => Some(String::from(name)),
            None => None,
        },
        None => None,
    }
}

/// The key under which the measurement is stored, given the final component of
/// the measurement file's path: that component, and an error where there is none.
pub fn key_from_component(component: Option<String>) -> (key: Result<String, StateError>)
    ensures
        key == match component {
            Some(name) => Ok::<String, StateError>(name),
            None => Err::<String, StateError>(StateError::NoFileName),
        },
{
    match component {
        Some(name) => Ok(name),
        None => Err(StateError::NoFileName),
    }
}

/// The state client.
#[derive(Debug, PartialEq, Eq)]
pub struct StateClient {
    pub config: StateClientConfig,
}

impl StateClient {
    pub fn new(config: StateClientConfig) -> (client: Self)
        ensures
            client.config == config,
    {
        StateClient { config }
    }

    /// The key of the config map under which the measurement is stored: the file
    /// name of the measurement file. A path without a file name is an error, and
    /// nothing else is.
    pub fn state_key(&self) -> (key: Result<String, StateError>)
        ensures
            key is Err ==> key == Err::<String, StateError>(StateError::NoFileName),
    {
        key_from_component(final_component(self.config.measurement_file_path.as_str()))
    }
}

} // verus!

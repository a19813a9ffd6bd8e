//! The user's preferences and the places under the home directory where the
//! tool keeps its files.

use crate::error::ErrorKind;
use crate::text::{chars_of, text_of};
use vstd::prelude::*;

verus! {

/// The preferences that the tool keeps between runs.
#[derive(Debug, Clone, PartialEq, Eq)]
pub struct Config {
    /// The token sent to the hub, if the user has one.
    pub hf_token: Option<String>,
    /// The runtime used when a command names none.
    pub default_runtime: Option<String>,
    /// The quantization used when a command names none.
    pub default_quant: Option<String>,
}

/// A `Config` as plain values.
pub struct ConfigView {
    pub hf_token: Option<Seq<char>>,
    pub default_runtime: Option<Seq<char>>,
    pub default_quant: Option<Seq<char>>,
}

impl View for Config {
    type V = ConfigView;

    open spec fn view(&self) -> ConfigView {
        ConfigView {
            hf_token: text_of(self.hf_token),
            default_runtime: text_of(self.default_runtime),
            default_quant: text_of(self.default_quant),
        }
    }
}

/// The preferences of a user who has set none.
pub open spec fn default_config() -> ConfigView {
    ConfigView {
        hf_token: None,
        default_runtime: Some("llama-cpp"@),
        default_quant: Some("q5_k_m"@),
    }
}

impl Default for Config {
    /// No token, the runtime `llama-cpp` and the quantization `q5_k_m`.
    fn default() -> (config: Config)
        ensures
            config@ == default_config(),
    {
        Config {
            hf_token: None,
            default_runtime: Some(String::from_str("llama-cpp")),
            default_quant: Some(String::from_str("q5_k_m")),
        }
    }
}

/// Why a place under the home directory cannot be named.
#[derive(Debug, Clone, Copy, PartialEq, Eq, Structural)]
pub enum ConfigError {
    /// The user has no home directory.
    NoHomeDirectory,
}

impl ConfigError {
    /// The class of the failure.
    pub fn kind(&self) -> (kind: ErrorKind)
        ensures
            kind == ErrorKind::Io,
    {
        ErrorKind::Io
    }

    /// The failure in words.
    pub fn message(&self) -> (text: String)
        ensures
            text@ == "Could not find home directory"@,
    {
        String::from_str("Could not find home directory")
    }
}

/// `name` placed in the directory `base`: the two are separated by one `/`
/// unless `base` is empty or already ends with one.
pub open spec fn joined(base: Seq<char>, name: Seq<char>) -> Seq<char> {
    if base.len() == 0 || base.last() == '/' {
        base + name
    } else {
        base + "/"@ + name
    }
}

/// The tool's own directory under `home`.
pub open spec fn yuuki_dir_of(home: Seq<char>) -> Seq<char> {
    joined(home, ".yuuki"@)
}

/// The directory under `home` that holds one directory per model.
pub open spec fn models_dir_of(home: Seq<char>) -> Seq<char> {
    joined(yuuki_dir_of(home), "models"@)
}

/// The file under `home` that holds the preferences.
pub open spec fn config_path_of(home: Seq<char>) -> Seq<char> {
    joined(yuuki_dir_of(home), "config.toml"@)
}

/// Places `name` in the directory `base`.
pub fn join(base: &str, name: &str) -> (path: String)
    ensures
        path@ == joined(base@, name@),
{
    let chars = chars_of(base);
    let mut path = String::from_str(base);
    if chars.len() > 0 && chars[chars.len() - 1] != '/' {
        path.append("/");
    }
    path.append(name);
    path
}

/// The tool's own directory, `.yuuki` under the home directory. Fails where
/// the user has no home directory.
pub fn get_yuuki_dir(home: Option<&str>) -> (dir: Result<String, ConfigError>)
    ensures
        match dir {
            Ok(p) => home is Some && p@ == yuuki_dir_of(home.unwrap()@),
            Err(e) => home is None && e == ConfigError::NoHomeDirectory,
        },
{
    match home {
        Some(h) => Ok(join(h, ".yuuki")),
        None => Err(ConfigError::NoHomeDirectory),
    }
}

/// The directory of the models, `models` under the tool's own directory.
pub fn get_models_dir(home: Option<&str>) -> (dir: Result<String, ConfigError>)
    ensures
        match dir {
            Ok(p) => home is Some && p@ == models_dir_of(home.unwrap()@),
            Err(e) => home is None && e == ConfigError::NoHomeDirectory,
        },
{
    match get_yuuki_dir(home) {
        Ok(yuuki_dir) => Ok(join(yuuki_dir.as_str(), "models")),
        Err(e) => Err(e),
    }
}

/// The file of the preferences, `config.toml` under the tool's own directory.
pub fn get_config_path(home: Option<&str>) -> (path: Result<String, ConfigError>)
    ensures
        match path {
            Ok(p) => home is Some && p@ == config_path_of(home.unwrap()@),
            Err(e) => home is None && e == ConfigError::NoHomeDirectory,
        },
{
    match get_yuuki_dir(home) {
        Ok(yuuki_dir) => Ok(join(yuuki_dir.as_str(), "config.toml")),
        Err(e) => Err(e),
    }
}

/// What reading the preferences comes to.
#[derive(Debug, Clone, PartialEq, Eq)]
pub struct Loaded {
    /// The preferences in force.
    pub config: Config,
    /// Whether they are new and have yet to be written to the file.
    pub created: bool,
}

/// The preferences in force, given what the file held: the stored ones, or,
/// where there was no file, the defaults, which are then to be written.
pub fn load_config(stored: Option<Config>) -> (loaded: Loaded)
    ensures
        loaded.created == (stored is None),
        loaded.config@ == (match stored {
            Some(config) => config@,
            None => default_config(),
        }),
{
    match stored {
        Some(config) => Loaded { config, created: false },
        None => Loaded { config: Config::default(), created: true },
    }
}

} // verus!

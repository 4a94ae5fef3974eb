//! The error type of the library.
use vstd::prelude::*;

verus! {

/// Declares `serde_json::Error`, carried by [`ConfigError::JSON`].
#[verifier::external_type_specification]
#[verifier::external_body]
pub struct ExJsonError(serde_json::Error);

/// Declares `serde_yaml::Error`, carried by [`ConfigError::YAML`].
#[verifier::external_type_specification]
#[verifier::external_body]
pub struct ExYamlError(serde_yaml::Error);

/// Declares `toml::de::Error`, carried by [`ConfigError::TOML`].
#[verifier::external_type_specification]
#[verifier::external_body]
pub struct ExTomlDeError(toml::de::Error);

/// Declares `toml::ser::Error`, carried by [`ConfigError::TomlWrite`].
#[verifier::external_type_specification]
#[verifier::external_body]
pub struct ExTomlSerError(toml::ser::Error);

/// Declares `std::io::Error`, carried by [`ConfigError::FileSystem`].
#[verifier::external_type_specification]
#[verifier::external_body]
pub struct ExIoError(std::io::Error);

/// Declares `anyhow::Error`, carried by [`ConfigError::Generic`].
#[verifier::external_type_specification]
#[verifier::external_body]
pub struct ExAnyhowError(anyhow::Error);

/// Every failure the library or its persistence formats can report.
#[derive(Debug)]
pub enum ConfigError {
    /// The configuration file could not be found.
    FileNotFound,
    /// Loaded or requested configuration is not valid.
    InvalidConfig(&'static str),
    /// Malformed JSON content, or a value that JSON cannot hold.
    JSON(serde_json::Error),
    /// Malformed YAML content, or a value that YAML cannot hold.
    YAML(serde_yaml::Error),
    /// Malformed TOML content.
    TOML(toml::de::Error),
    /// A value that TOML cannot hold.
    TomlWrite(toml::ser::Error),
    /// A failure of the file system.
    FileSystem(std::io::Error),
    /// The requested theme does not exist.
    ThemeNotFound,
    /// A failure described by a fixed message.
    Custom(&'static str),
    /// Any other failure.
    Generic(anyhow::Error),
}

} // verus!

//! Locating and creating the configuration file of a command-line
//! application, following the XDG base-directory layout on Unix-like
//! systems and the platform configuration directory on Windows.
use vstd::prelude::*;

pub mod error;
pub mod fs;
pub mod paths;
pub mod resolve;

verus! {

/// The result type of this library, carrying its own [`error::ConfigError`].
pub type Result<T> = core::result::Result<T, error::ConfigError>;

} // verus!

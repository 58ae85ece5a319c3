//! Startup configuration of the dispatch core.
//!
//! The process reads a structured configuration document at startup; its
//! authentication section carries the platform token and the superuser id.
//! Reading and parsing the document are the unverified shell's work; this
//! module owns the configuration's shape and the choice of the file path.

use vstd::prelude::*;

verus! {

/// The authentication section of the configuration.
pub struct AuthConfig {
    /// The platform token the client connects with.
    pub token: String,
    /// The superuser's platform id.
    pub superuser: u64,
}

/// The process configuration.
pub struct Config {
    /// The authentication section.
    pub auth: AuthConfig,
}

/// A startup-fatal configuration fault. Malformed or missing configuration
/// never reaches dispatch: the process does not start listening.
#[derive(Clone, Copy, Debug, PartialEq, Eq, Structural)]
pub enum ConfigError {
    /// The configured prefix could not be compiled into a matcher.
    BadPrefix,
}

/// The configuration file path: the overriding value when the environment
/// supplies one, else the fixed default.
pub fn config_path(override_path: Option<String>) -> (r: String)
    ensures
        match override_path {
            Some(p) => r@ == p@,
            None => r@ == "config.toml"@,
        },
{
    match override_path {
        Some(p) => p,
        None => "config.toml".to_owned(),
    }
}

} // verus!

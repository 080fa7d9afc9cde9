//! The server configuration: plain settings records, parsed level lookup
//! and the resolved HTTP bind pair.

use vstd::prelude::*;
use crate::config::{ConfigError, bad_level_message, level_of_name};
use crate::loglevel::{LogLevel, spec_parse_level};

verus! {

/// The HTTP server bind settings.
#[derive(Clone, Debug, PartialEq, Eq)]
pub struct RocketConfig {
    pub address: String,
    pub port: u16,
}

impl RocketConfig {
    /// The resolved bind pair handed to the HTTP layer.
    pub fn get(&self) -> (r: (String, u16))
        ensures
            r.0@ == self.address@,
            r.1 == self.port,
    {
        (self.address.clone(), self.port)
    }
}

/// The server configuration.
#[derive(Clone, Debug, PartialEq, Eq)]
pub struct Config {
    /// The configured level name.
    pub log_level: String,
    /// The hypervisor connection URI.
    pub libvirt_uri: String,
    /// The HTTP bind settings.
    pub http: RocketConfig,
}

impl Config {
    /// The configured level, parsed; an unknown name is a configuration
    /// error naming it.
    pub fn log_level(&self) -> (r: Result<LogLevel, ConfigError>)
        ensures
            match spec_parse_level(self.log_level@) {
                Some(l) => r == Ok::<LogLevel, ConfigError>(l),
                None => r matches Err(e) && e.message@ == bad_level_message(self.log_level@),
            },
    {
        level_of_name(self.log_level.as_str())
    }

    /// The hypervisor connection URI.
    pub fn libvirt_uri(&self) -> (r: &str)
        ensures
            r@ == self.libvirt_uri@,
    {
        self.libvirt_uri.as_str()
    }

    /// The HTTP bind settings.
    pub fn http(&self) -> (r: &RocketConfig)
        ensures
            *r == self.http,
    {
        &self.http
    }
}

} // verus!

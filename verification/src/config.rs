//! The client configuration: plain settings records and the small decisions
//! derived from them. Loading, merging and persisting the settings is the
//! surrounding program's work; the records here hold the result.

use vstd::prelude::*;
use crate::loglevel::{LogLevel, parse_level, spec_parse_level};

verus! {

/// A configuration error, carrying a message naming what was wrong.
#[derive(Clone, Debug, PartialEq, Eq)]
pub struct ConfigError {
    pub message: String,
}

/// The message of the error a bad level name draws.
pub open spec fn bad_level_message(name: Seq<char>) -> Seq<char> {
    "invalid log level '"@ + name + "'"@
}

/// Parse a configured level name into a level, or the error naming it.
pub fn level_of_name(name: &str) -> (r: Result<LogLevel, ConfigError>)
    ensures
        match spec_parse_level(name@) {
            Some(l) => r == Ok::<LogLevel, ConfigError>(l),
            None => r matches Err(e) && e.message@ == bad_level_message(name@),
        },
{
    match parse_level(name) {
        Some(l) => Ok(l),
        None => {
            let m = String::from_str("invalid log level '");
            let m = m.concat(name);
            Err(ConfigError { message: m.concat("'") })
        },
    }
}

/// Logging settings: a level name and the log directory.
#[derive(Clone, Debug, PartialEq, Eq)]
pub struct Logging {
    pub level: String,
    pub dir: String,
}

impl Logging {
    /// The configured level, parsed; an unknown name is a configuration
    /// error naming it.
    pub fn level(&self) -> (r: Result<LogLevel, ConfigError>)
        ensures
            match spec_parse_level(self.level@) {
                Some(l) => r == Ok::<LogLevel, ConfigError>(l),
                None => r matches Err(e) && e.message@ == bad_level_message(self.level@),
            },
    {
        level_of_name(self.level.as_str())
    }
}

/// Native backend settings: the hypervisor connection URI.
#[derive(Clone, Debug, PartialEq, Eq)]
pub struct Libvirt {
    pub uri: String,
}

/// HTTP backend settings: the server's base URL.
#[derive(Clone, Debug, PartialEq, Eq)]
pub struct Http {
    pub url: String,
}

/// The client configuration.
#[derive(Clone, Debug, PartialEq, Eq)]
pub struct Config {
    /// The path the configuration was loaded from.
    pub file: String,
    /// Whether the native backend is used (else the HTTP backend).
    pub native: bool,
    /// The domain the devices are toggled into.
    pub domain: String,
    /// The evdev ids to toggle, in batch order.
    pub devices: Vec<String>,
    /// Whether the service is registered to start with the session.
    pub service_startup: bool,
    /// The configured hotkey accelerator name.
    pub hotkey: String,
    /// Whether this process runs as the background service.
    pub is_service: bool,
    pub logging: Logging,
    pub libvirt: Libvirt,
    pub http: Http,
}

impl Config {
    /// The path the configuration was loaded from.
    pub fn file(&self) -> (r: &str)
        ensures
            r@ == self.file@,
    {
        self.file.as_str()
    }

    /// The log file path: `service.log` or `gui.log` under the logging
    /// directory, by the mode the process runs in.
    pub fn log_file(&self) -> (r: String)
        ensures
            r@ == self.logging.dir@ + "/"@ + (if self.is_service {
                "service.log"@
            } else {
                "gui.log"@
            }),
    {
        let s = self.logging.dir.clone();
        let s = s.concat("/");
        if self.is_service {
            s.concat("service.log")
        } else {
            s.concat("gui.log")
        }
    }
}

} // verus!

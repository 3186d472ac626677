//! Process configuration: the record itself and its default contents.
//!
//! Reading and writing the configuration file, and creating the directories
//! it names, are filesystem work and live in the unverified shell; the shell
//! obtains the record's default contents from here, handing in the directory
//! the process runs from as a plain string.

use vstd::prelude::*;
use vstd::string::StringExecFns;

verus! {

/// How often log files roll over.
#[derive(Debug, Clone, Copy, PartialEq, Eq, Structural)]
pub enum LogRotation {
    Daily,
    Hourly,
}

/// Process configuration.
#[derive(Debug, Clone, PartialEq, Eq)]
pub struct Config {
    pub addr: String,
    pub port: u16,
    pub https_port: u16,
    pub log_path: Option<String>,
    pub log_error_path: Option<String>,
    pub log_level: String,
    pub log_rotation: LogRotation,
    pub title: Option<String>,
    pub db_path: String,
}

impl Config {
    /// The default configuration, rooted at `base` (the directory the running
    /// executable sits in): listen on all interfaces, port 8080 (8443 for
    /// https), daily-rotated logs under `base`, and the database file beside
    /// the executable.
    pub fn defaults_in(base: &str) -> (c: Config)
        ensures
            c.addr@ == "0.0.0.0"@,
            c.port == 8080,
            c.https_port == 8443,
            c.log_level@ == "info"@,
            c.log_rotation == LogRotation::Daily,
            (c.title matches Some(t) && t@ == "Ferri"@),
            c.db_path@ == base@ + "/ferri.db"@,
            (c.log_path matches Some(p) && p@ == base@ + "/logs"@),
            (c.log_error_path matches Some(p) && p@ == base@ + "/logs/error"@),
    {
        let log_path = String::from_str(base).concat("/logs");
        let log_error_path = String::from_str(base).concat("/logs/error");
        let db_path = String::from_str(base).concat("/ferri.db");
        Config {
            addr: "0.0.0.0".to_owned(),
            port: 8080,
            https_port: 8443,
            log_level: "info".to_owned(),
            log_rotation: LogRotation::Daily,
            title: Some("Ferri".to_owned()),
            db_path,
            log_path: Some(log_path),
            log_error_path: Some(log_error_path),
        }
    }
}

} // verus!

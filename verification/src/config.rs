//! The bridge's small persisted configuration: log verbosity and an
//! optional authentication mode, with the defaults written on first run.
//! Reading and writing the file, and wiring the logger, are the rim's; the
//! record itself and the directory-choice rule are verified here.
use vstd::prelude::*;

verus! {

/// Log verbosity, from silent to everything.
#[derive(Clone, Copy, Debug, PartialEq, Eq, Structural)]
pub enum LogLevel {
    Off,
    Error,
    Warn,
    Info,
    Debug,
    Trace,
}

/// How the bridge authenticates to the bus.
#[derive(Clone, Copy, Debug, PartialEq, Eq)]
pub enum Auth {
    Anonymous,
    Kerberos,
    Tls,
}

/// The on-disk record.
#[derive(Clone, Copy, Debug, PartialEq, Eq)]
pub struct Config {
    pub log_level: LogLevel,
    pub auth_mechanism: Option<Auth>,
}

impl Default for Config {
    /// First-run defaults: logging off, no authentication mode chosen.
    fn default() -> (c: Config)
        ensures
            c.log_level == LogLevel::Off,
            c.auth_mechanism is None,
    {
        Config { log_level: LogLevel::Off, auth_mechanism: None }
    }
}

/// Where the configuration directory lives: the platform's configuration
/// directory if it has one, else the home directory, else the filesystem
/// root.
pub fn config_base_dir(config_dir: Option<String>, home_dir: Option<String>) -> (r: String)
    ensures
        (config_dir matches Some(d) ==> r@ == d@),
        config_dir is None ==> (home_dir matches Some(d) ==> r@ == d@),
        config_dir is None && home_dir is None ==> r@ == "\\"@,
{
    match config_dir {
        Some(d) => d,
        None => match home_dir {
            Some(d) => d,
            None => String::from_str("\\"),
        },
    }
}

} // verus!

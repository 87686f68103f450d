//! Defaults of the service configuration.

use vstd::prelude::*;
use vstd::string::*;

verus! {

/// Seconds between two cleanup runs, unless configured.
pub fn default_cleanup_interval() -> (secs: u32)
    ensures
        secs == 300,
{
    300
}

/// The port that the service listens on, unless configured.
pub fn default_port() -> (port: u16)
    ensures
        port == 8082,
{
    8082
}

/// The log level, unless configured.
pub fn default_log_level() -> (level: String)
    ensures
        level@ == "warn"@,
{
    "warn".to_owned()
}

} // verus!

//! Settings of a deployment.

use vstd::prelude::*;

verus! {

/// The lifetime of a session where none is configured, in seconds.
pub const DEFAULT_MAX_ALIVE_SECS: u64 = 86400;

/// Settings of a deployment.
pub struct SiteConfig {
    /// The longest time a session stays valid after login, in seconds.
    pub max_alive_secs: u64,
}

impl Default for SiteConfig {
    fn default() -> (config: SiteConfig)
        ensures
            config.max_alive_secs == DEFAULT_MAX_ALIVE_SECS,
    {
        SiteConfig { max_alive_secs: DEFAULT_MAX_ALIVE_SECS }
    }
}

} // verus!

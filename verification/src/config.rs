//! Process-wide configuration: base URLs for both providers and the NBA
//! API key. Values are read from the environment at startup, outside the
//! library, and are read-only afterwards.

use vstd::prelude::*;

verus! {

/// Configuration for the application.
#[derive(Debug, Clone)]
pub struct Config {
    /// Base URL for the MLB API.
    pub mlb_api_base_url: String,
    /// Base URL for the NBA API.
    pub nba_api_base_url: String,
    /// API key for the NBA API; required for NBA operations.
    pub nba_api_key: String,
}

impl Config {
    /// Bundles the three configuration values.
    pub fn new(mlb_api_base_url: String, nba_api_base_url: String, nba_api_key: String) -> (r:
        Config)
        ensures
            r.mlb_api_base_url == mlb_api_base_url,
            r.nba_api_base_url == nba_api_base_url,
            r.nba_api_key == nba_api_key,
    {
        Config { mlb_api_base_url, nba_api_base_url, nba_api_key }
    }

    /// Whether the NBA key is present: its absence is a configuration
    /// error that is fatal for that provider's operations alone.
    pub fn has_nba_key(&self) -> (r: bool)
        ensures
            r == (self.nba_api_key@.len() > 0),
    {
        !self.nba_api_key.as_str().is_empty()
    }
}

} // verus!

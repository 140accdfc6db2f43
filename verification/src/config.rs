//! Runtime configuration: the feed's base URL, the page size, and the
//! debug switch. Argument and environment parsing live with the caller;
//! the defaults are fixed here.

use vstd::prelude::*;

verus! {

/// Settings the reader runs with.
#[derive(Debug, Clone)]
pub struct Config {
    /// Base URL of the feed.
    pub api_url: String,
    /// Number of articles fetched per page.
    pub limit: u32,
    /// Whether debug output is requested.
    pub debug: bool,
}

/// The published site, used when no URL is configured.
pub fn default_api_url() -> (r: String)
    ensures
        r@ == "https://potluck-xl.vercel.app"@,
{
    String::from_str("https://potluck-xl.vercel.app")
}

/// Page size used when none is configured.
pub fn default_limit() -> (r: u32)
    ensures
        r == 50,
{
    50
}

impl Default for Config {
    /// The configuration with every setting at its default.
    fn default() -> (c: Config)
        ensures
            c.api_url@ == "https://potluck-xl.vercel.app"@,
            c.limit == 50,
            !c.debug,
    {
        Config { api_url: default_api_url(), limit: default_limit(), debug: false }
    }
}

} // verus!

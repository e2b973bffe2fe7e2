//! Configuration for the client: identifying string, requests-per-second
//! quota, per-request timeout, and the base URL prefixes of the four EDGAR
//! service areas.
//!
//! Configuration is consumed once at construction and never re-read; the
//! validation itself lives in [`crate::core::Edgar::with_config`].

use vstd::prelude::*;
use vstd::string::StringExecFns;

verus! {

/// Base URLs for the EDGAR service areas: historical archives, the structured
/// data API, static files, and full-text search. Opaque strings, not
/// validated as URLs at construction time.
#[derive(Debug, Clone)]
pub struct EdgarUrls {
    pub archives: String,
    pub data: String,
    pub files: String,
    pub search: String,
}

impl Default for EdgarUrls {
    /// The production SEC endpoints.
    fn default() -> (r: Self)
        ensures
            r.archives@ == "https://www.sec.gov/Archives/edgar"@,
            r.data@ == "https://data.sec.gov"@,
            r.files@ == "https://www.sec.gov/files"@,
            r.search@ == "https://efts.sec.gov/LATEST/search-index/"@,
    {
        EdgarUrls {
            archives: String::from_str("https://www.sec.gov/Archives/edgar"),
            data: String::from_str("https://data.sec.gov"),
            files: String::from_str("https://www.sec.gov/files"),
            search: String::from_str("https://efts.sec.gov/LATEST/search-index/"),
        }
    }
}

/// Client configuration: the identifying string sent on every request, the
/// requests-per-second quota, the per-request timeout in milliseconds, and
/// the base URLs.
#[derive(Debug, Clone)]
pub struct EdgarConfig {
    pub user_agent: String,
    pub rate_limit: u32,
    pub timeout_ms: u64,
    pub base_urls: EdgarUrls,
}

impl Default for EdgarConfig {
    /// Ten requests per second, a thirty-second timeout, and the production
    /// endpoints.
    fn default() -> (r: Self)
        ensures
            r.user_agent@ == "edgarkit/0.1.0"@,
            r.rate_limit == 10,
            r.timeout_ms == 30000,
            r.base_urls.archives@ == "https://www.sec.gov/Archives/edgar"@,
            r.base_urls.data@ == "https://data.sec.gov"@,
            r.base_urls.files@ == "https://www.sec.gov/files"@,
            r.base_urls.search@ == "https://efts.sec.gov/LATEST/search-index/"@,
    {
        EdgarConfig {
            user_agent: String::from_str("edgarkit/0.1.0"),
            rate_limit: 10,
            timeout_ms: 30000,
            base_urls: EdgarUrls::default(),
        }
    }
}

impl EdgarConfig {
    /// Builds a configuration from its parts; `None` takes the default base
    /// URLs.
    pub fn new(user_agent: &str, rate_limit: u32, timeout_ms: u64, base_urls: Option<EdgarUrls>) -> (r:
        Self)
        ensures
            r.user_agent@ == user_agent@,
            r.rate_limit == rate_limit,
            r.timeout_ms == timeout_ms,
            base_urls matches Some(u) ==> r.base_urls == u,
            base_urls is None ==> r.base_urls.archives@ == "https://www.sec.gov/Archives/edgar"@
                && r.base_urls.data@ == "https://data.sec.gov"@ && r.base_urls.files@
                == "https://www.sec.gov/files"@ && r.base_urls.search@
                == "https://efts.sec.gov/LATEST/search-index/"@,
    {
        let urls = match base_urls {
            Some(u) => u,
            None => EdgarUrls::default(),
        };
        EdgarConfig { user_agent: String::from_str(user_agent), rate_limit, timeout_ms, base_urls: urls }
    }
}

} // verus!

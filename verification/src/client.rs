//! The validated client instance.
//!
//! `Edgar` holds the configuration after construction-time validation: a
//! nonempty identifying string every character of which can be sent as an
//! HTTP header value, a positive requests-per-second quota, the per-request
//! timeout, and the four base URLs. Construction fails with a
//! `ConfigError` exactly when one of those conditions is violated; no
//! network connection is attempted.

use vstd::prelude::*;
use vstd::string::StringExecFns;

use crate::config::EdgarConfig;
use crate::config::EdgarUrls;
use crate::error::EdgarError;
use crate::limiter::TokenBucket;
use crate::text::valid_header_value;
use crate::text::str_is_valid_header_value;

verus! {

/// The crate version.
pub const VERSION: &'static str = "0.1.0";

/// A validated client configuration. The transport loop that drives HTTP
/// attempts against it lives outside the library; every decision that loop
/// takes comes from [`crate::transport`].
#[derive(Debug, Clone)]
pub struct Edgar {
    pub user_agent: String,
    pub rate_limit: u32,
    pub timeout_ms: u64,
    pub edgar_archives_url: String,
    pub edgar_data_url: String,
    pub edgar_files_url: String,
    pub edgar_search_url: String,
}

/// The configuration is acceptable: nonempty identifying string that can be
/// sent as a header value, and a positive quota.
pub open spec fn config_acceptable(config: EdgarConfig) -> bool {
    config.user_agent@.len() > 0 && valid_header_value(config.user_agent@) && config.rate_limit
        >= 1
}

impl Edgar {
    /// The invariant every constructed client satisfies.
    pub open spec fn wf(self) -> bool {
        self.user_agent@.len() > 0 && valid_header_value(self.user_agent@) && self.rate_limit >= 1
    }

    /// Builds a client with the default quota of ten requests per second, a
    /// thirty-second timeout, and the production base URLs. Fails exactly
    /// when the identifying string is empty or cannot be sent as a header
    /// value, with the message naming the cause.
    pub fn new(user_agent: &str) -> (r: Result<Self, EdgarError>)
        ensures
            r is Ok <==> user_agent@.len() > 0 && valid_header_value(user_agent@),
            r matches Ok(e) ==> e.wf() && e.user_agent@ == user_agent@ && e.rate_limit == 10
                && e.timeout_ms == 30000 && e.edgar_archives_url@
                == "https://www.sec.gov/Archives/edgar"@ && e.edgar_data_url@
                == "https://data.sec.gov"@ && e.edgar_files_url@ == "https://www.sec.gov/files"@
                && e.edgar_search_url@ == "https://efts.sec.gov/LATEST/search-index/"@,
            user_agent@.len() == 0 ==> (r matches Err(e) && e matches EdgarError::ConfigError(m)
                && m@ == "Invalid user agent: empty"@),
            user_agent@.len() > 0 && !valid_header_value(user_agent@) ==> (r matches Err(e)
                && e matches EdgarError::ConfigError(m) && m@
                == "Invalid user agent: not a valid header value"@),
    {
        let config = EdgarConfig {
            user_agent: String::from_str(user_agent),
            rate_limit: 10,
            timeout_ms: 30000,
            base_urls: EdgarUrls::default(),
        };
        Self::with_config(config)
    }

    /// Validates a configuration and builds the client. Returns
    /// `ConfigError` exactly when the identifying string is empty, a
    /// character of it cannot stand in a header value, or the quota is zero,
    /// checked in that order, with the message naming the cause.
    pub fn with_config(config: EdgarConfig) -> (r: Result<Self, EdgarError>)
        ensures
            r is Ok <==> config_acceptable(config),
            r matches Ok(e) ==> e.wf() && e.user_agent@ == config.user_agent@ && e.rate_limit
                == config.rate_limit && e.timeout_ms == config.timeout_ms
                && e.edgar_archives_url@ == config.base_urls.archives@ && e.edgar_data_url@
                == config.base_urls.data@ && e.edgar_files_url@ == config.base_urls.files@
                && e.edgar_search_url@ == config.base_urls.search@,
            config.user_agent@.len() == 0 ==> (r matches Err(e) && e matches
                EdgarError::ConfigError(m) && m@ == "Invalid user agent: empty"@),
            config.user_agent@.len() > 0 && !valid_header_value(config.user_agent@) ==> (
            r matches Err(e) && e matches EdgarError::ConfigError(m) && m@
                == "Invalid user agent: not a valid header value"@),
            config.user_agent@.len() > 0 && valid_header_value(config.user_agent@)
                && config.rate_limit == 0 ==> (r matches Err(e) && e matches
                EdgarError::ConfigError(m) && m@ == "Rate limit must be greater than zero"@),
    {
        if config.user_agent.as_str().unicode_len() == 0 {
            return Err(EdgarError::ConfigError(String::from_str("Invalid user agent: empty")));
        }
        if !str_is_valid_header_value(config.user_agent.as_str()) {
            return Err(
                EdgarError::ConfigError(
                    String::from_str("Invalid user agent: not a valid header value"),
                ),
            );
        }
        if config.rate_limit == 0 {
            return Err(
                EdgarError::ConfigError(
                    String::from_str("Rate limit must be greater than zero"),
                ),
            );
        }
        Ok(
            Edgar {
                user_agent: config.user_agent,
                rate_limit: config.rate_limit,
                timeout_ms: config.timeout_ms,
                edgar_archives_url: config.base_urls.archives,
                edgar_data_url: config.base_urls.data,
                edgar_files_url: config.base_urls.files,
                edgar_search_url: config.base_urls.search,
            },
        )
    }

    /// A fresh token bucket sized to this client's quota, to be shared by
    /// every request issued through the client.
    pub fn make_limiter(&self, now_ms: u64) -> (r: TokenBucket)
        requires
            self.wf(),
        ensures
            r.wf(),
            r.quota() == self.rate_limit,
            r.grants()@.len() == 0,
    {
        TokenBucket::new(self.rate_limit, now_ms)
    }

    /// The identifying string sent on every request.
    pub fn user_agent(&self) -> (r: &str)
        ensures
            r@ == self.user_agent@,
    {
        self.user_agent.as_str()
    }

    /// The configured requests-per-second quota.
    pub fn rate_limit(&self) -> (r: u32)
        ensures
            r == self.rate_limit,
    {
        self.rate_limit
    }

    /// The configured per-request timeout, in milliseconds.
    pub fn timeout_ms(&self) -> (r: u64)
        ensures
            r == self.timeout_ms,
    {
        self.timeout_ms
    }

    /// The base URL for EDGAR archives.
    pub fn archives_url(&self) -> (r: &str)
        ensures
            r@ == self.edgar_archives_url@,
    {
        self.edgar_archives_url.as_str()
    }

    /// The base URL for the EDGAR data API.
    pub fn data_url(&self) -> (r: &str)
        ensures
            r@ == self.edgar_data_url@,
    {
        self.edgar_data_url.as_str()
    }

    /// The base URL for EDGAR files.
    pub fn files_url(&self) -> (r: &str)
        ensures
            r@ == self.edgar_files_url@,
    {
        self.edgar_files_url.as_str()
    }

    /// The base URL for EDGAR full-text search.
    pub fn search_url(&self) -> (r: &str)
        ensures
            r@ == self.edgar_search_url@,
    {
        self.edgar_search_url.as_str()
    }
}

} // verus!

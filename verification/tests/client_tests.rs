//! Client construction and configuration validation.

use edgarkit::Edgar;
use edgarkit::EdgarConfig;
use edgarkit::EdgarError;
use edgarkit::EdgarUrls;

#[test]
fn construction_with_defaults() {
    let edgar = Edgar::new("my_app/1.0 (my@email.com)").unwrap();
    assert_eq!(edgar.user_agent(), "my_app/1.0 (my@email.com)");
    assert_eq!(edgar.rate_limit(), 10);
    assert_eq!(edgar.timeout_ms(), 30000);
    assert_eq!(edgar.archives_url(), "https://www.sec.gov/Archives/edgar");
    assert_eq!(edgar.data_url(), "https://data.sec.gov");
    assert_eq!(edgar.files_url(), "https://www.sec.gov/files");
    assert_eq!(edgar.search_url(), "https://efts.sec.gov/LATEST/search-index/");
}

#[test]
fn construction_rejects_bad_configuration() {
    // An empty identifying string.
    match Edgar::new("") {
        Err(EdgarError::ConfigError(m)) => assert_eq!(m, "Invalid user agent: empty"),
        other => panic!("expected a configuration error, got {:?}", other),
    }
    // A string no header value can hold.
    match Edgar::new("agent\nwith newline") {
        Err(EdgarError::ConfigError(m)) => {
            assert_eq!(m, "Invalid user agent: not a valid header value")
        }
        other => panic!("expected a configuration error, got {:?}", other),
    }
    // A zero quota.
    let config = EdgarConfig::new("valid agent", 0, 30000, None);
    match Edgar::with_config(config) {
        Err(EdgarError::ConfigError(m)) => {
            assert_eq!(m, "Rate limit must be greater than zero")
        }
        other => panic!("expected a configuration error, got {:?}", other),
    }
}

#[test]
fn custom_configuration_carries_over() {
    let urls = EdgarUrls {
        archives: "http://localhost:9000/archives".to_string(),
        data: "http://localhost:9000/data".to_string(),
        files: "http://localhost:9000/files".to_string(),
        search: "http://localhost:9000/search".to_string(),
    };
    let config = EdgarConfig::new("custom_app/2.0", 5, 60000, Some(urls));
    let edgar = Edgar::with_config(config).unwrap();
    assert_eq!(edgar.rate_limit(), 5);
    assert_eq!(edgar.timeout_ms(), 60000);
    assert_eq!(edgar.archives_url(), "http://localhost:9000/archives");
    assert_eq!(edgar.search_url(), "http://localhost:9000/search");
}

#[test]
fn limiter_sized_to_the_quota() {
    let edgar = Edgar::new("test_agent example@example.com").unwrap();
    let mut bucket = edgar.make_limiter(0);
    let mut granted = 0;
    for _ in 0..30 {
        if bucket.try_acquire(0) {
            granted += 1;
        }
    }
    assert_eq!(granted, 10);
}

#[test]
fn default_config_values() {
    let config = EdgarConfig::default();
    assert_eq!(config.user_agent, "edgarkit/0.1.0");
    assert_eq!(config.rate_limit, 10);
    assert_eq!(config.timeout_ms, 30000);
    assert_eq!(config.base_urls.data, "https://data.sec.gov");
}

#[test]
fn error_messages_name_their_cause() {
    assert_eq!(EdgarError::NotFound.message(), "Resource not found");
    assert_eq!(EdgarError::RateLimitExceeded.message(), "Rate limit exceeded");
    assert_eq!(
        EdgarError::RequestError("connection refused".to_string()).message(),
        "HTTP request failed: connection refused"
    );
    assert_eq!(
        EdgarError::InvalidQuarter.message(),
        "Invalid quarter: must be between 1 and 4"
    );
    let mismatch = EdgarError::UnexpectedContentType {
        url: "https://example.test/a.json".to_string(),
        expected_pattern: "application/json".to_string(),
        got_content_type: "text/html".to_string(),
        content_preview: "<html>".to_string(),
    };
    assert_eq!(
        mismatch.message(),
        "Unexpected content type from URL https://example.test/a.json. \
         Expected pattern application/json, but got Content-Type: text/html. \
         Content preview: <html>..."
    );
}

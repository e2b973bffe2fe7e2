//! Error taxonomy surfaced by the transport core and the endpoint helpers.
//!
//! Every fallible operation returns `Result<T, EdgarError>`. The transport
//! core never recovers from an error beyond its own retry loop: each terminal
//! error is returned as a typed value, and callers pattern-match on the kind.

use vstd::prelude::*;
use vstd::string::StringExecFns;

verus! {

/// The error kinds of the library.
///
/// `RequestError` carries the text of a transport-level failure (DNS,
/// connect, read). `NotFound` is HTTP 404. `RateLimitExceeded` is HTTP 429
/// persisting past the retry cap. `UnexpectedContentType` is a `.json` URL
/// that returned an HTML body. `InvalidResponse` is any other non-2xx status,
/// with a body preview. The remaining variants are validation and decoding
/// errors raised by the endpoint helpers.
#[derive(Debug, Clone)]
pub enum EdgarError {
    RequestError(String),
    NotFound,
    InvalidResponse(String),
    RateLimitExceeded,
    InvalidYear,
    InvalidQuarter,
    InvalidMonth,
    InvalidDay,
    InvalidXBRLYear,
    TickerNotFound,
    FileError(String),
    JsonError(String),
    XmlError(String),
    ConfigError(String),
    InvalidFormat(String),
    ValueConversion(String),
    ParseIntError(String),
    Utf8Error(String),
    UnexpectedContentType {
        url: String,
        expected_pattern: String,
        got_content_type: String,
        content_preview: String,
    },
}

/// The human-readable rendering of each error kind.
pub open spec fn spec_message(e: EdgarError) -> Seq<char> {
    match e {
        EdgarError::RequestError(m) => "HTTP request failed: "@ + m@,
        EdgarError::NotFound => "Resource not found"@,
        EdgarError::InvalidResponse(m) => "Invalid response: "@ + m@,
        EdgarError::RateLimitExceeded => "Rate limit exceeded"@,
        EdgarError::InvalidYear => "Invalid year: must be 1994 or greater"@,
        EdgarError::InvalidQuarter => "Invalid quarter: must be between 1 and 4"@,
        EdgarError::InvalidMonth => "Invalid month: must be between 1 and 12"@,
        EdgarError::InvalidDay => "Invalid day: must be between 1 and 31"@,
        EdgarError::InvalidXBRLYear => "Invalid year: must be 2005 or greater for XBRL"@,
        EdgarError::TickerNotFound => "Ticker not found"@,
        EdgarError::FileError(m) => "File error: "@ + m@,
        EdgarError::JsonError(m) => "JSON parsing error: "@ + m@,
        EdgarError::XmlError(m) => "XML parsing error: "@ + m@,
        EdgarError::ConfigError(m) => "Configuration error: "@ + m@,
        EdgarError::InvalidFormat(m) => "Invalid format: "@ + m@,
        EdgarError::ValueConversion(m) => "Value conversion error: "@ + m@,
        EdgarError::ParseIntError(m) => "String parsing error: "@ + m@,
        EdgarError::Utf8Error(m) => "UTF-8 conversion error: "@ + m@,
        EdgarError::UnexpectedContentType { url, expected_pattern, got_content_type, content_preview } =>
            "Unexpected content type from URL "@ + url@ + ". Expected pattern "@
            + expected_pattern@ + ", but got Content-Type: "@ + got_content_type@
            + ". Content preview: "@ + content_preview@ + "..."@,
    }
}

impl EdgarError {
    /// Renders the error for a reader, each kind with its cause spelled out.
    pub fn message(&self) -> (r: String)
        ensures
            r@ == spec_message(*self),
    {
        match self {
            EdgarError::RequestError(m) => {
                let mut s = String::from_str("HTTP request failed: ");
                s.append(m.as_str());
                s
            },
            EdgarError::NotFound => String::from_str("Resource not found"),
            EdgarError::InvalidResponse(m) => {
                let mut s = String::from_str("Invalid response: ");
                s.append(m.as_str());
                s
            },
            EdgarError::RateLimitExceeded => String::from_str("Rate limit exceeded"),
            EdgarError::InvalidYear => String::from_str("Invalid year: must be 1994 or greater"),
            EdgarError::InvalidQuarter => String::from_str(
                "Invalid quarter: must be between 1 and 4",
            ),
            EdgarError::InvalidMonth => String::from_str("Invalid month: must be between 1 and 12"),
            EdgarError::InvalidDay => String::from_str("Invalid day: must be between 1 and 31"),
            EdgarError::InvalidXBRLYear => String::from_str(
                "Invalid year: must be 2005 or greater for XBRL",
            ),
            EdgarError::TickerNotFound => String::from_str("Ticker not found"),
            EdgarError::FileError(m) => {
                let mut s = String::from_str("File error: ");
                s.append(m.as_str());
                s
            },
            EdgarError::JsonError(m) => {
                let mut s = String::from_str("JSON parsing error: ");
                s.append(m.as_str());
                s
            },
            EdgarError::XmlError(m) => {
                let mut s = String::from_str("XML parsing error: ");
                s.append(m.as_str());
                s
            },
            EdgarError::ConfigError(m) => {
                let mut s = String::from_str("Configuration error: ");
                s.append(m.as_str());
                s
            },
            EdgarError::InvalidFormat(m) => {
                let mut s = String::from_str("Invalid format: ");
                s.append(m.as_str());
                s
            },
            EdgarError::ValueConversion(m) => {
                let mut s = String::from_str("Value conversion error: ");
                s.append(m.as_str());
                s
            },
            EdgarError::ParseIntError(m) => {
                let mut s = String::from_str("String parsing error: ");
                s.append(m.as_str());
                s
            },
            EdgarError::Utf8Error(m) => {
                let mut s = String::from_str("UTF-8 conversion error: ");
                s.append(m.as_str());
                s
            },
            EdgarError::UnexpectedContentType {
                url,
                expected_pattern,
                got_content_type,
                content_preview,
            } => {
                let mut s = String::from_str("Unexpected content type from URL ");
                s.append(url.as_str());
                s.append(". Expected pattern ");
                s.append(expected_pattern.as_str());
                s.append(", but got Content-Type: ");
                s.append(got_content_type.as_str());
                s.append(". Content preview: ");
                s.append(content_preview.as_str());
                s.append("...");
                s
            },
        }
    }
}

} // verus!

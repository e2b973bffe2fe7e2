//! Client-side core for the SEC EDGAR system: a verified rate-limited,
//! retrying transport state machine, configuration validation, URL builders
//! for the EDGAR endpoints, filing/search/feed option builders, and a parser
//! for EDGAR index files.
//!
//! Network I/O itself (HTTP, sleeping, async) lives outside this library; the
//! library decides what each attempt means and what to do next, and proves
//! those decisions correct.

pub mod config;
pub mod client;
pub mod company;
pub mod error;
pub mod feeds;
pub mod filings;
pub mod index;
pub mod limiter;
pub mod options;
pub mod parsing;
pub mod search;
pub mod text;
pub mod transport;

pub use config::EdgarConfig;
pub use config::EdgarUrls;
pub use client::Edgar;
pub use client::VERSION;
pub use company::CompanyTicker;
pub use company::CompanyTickerExchange;
pub use company::Frame;
pub use company::MutualFundTicker;
pub use error::EdgarError;
pub use filings::DetailedFiling;
pub use filings::DirectoryResponse;
pub use filings::Submission;
pub use index::EdgarDay;
pub use index::EdgarPeriod;
pub use index::IndexResponse;
pub use index::Quarter;
pub use options::FeedOptions;
pub use options::FilingOptions;
pub use search::Hit;
pub use search::Hits;
pub use search::SearchOptions;
pub use search::SearchResponse;
pub use search::TotalHits;

//! Parsers for the textual index files EDGAR serves, and the document types
//! of its Atom and RSS feeds.

pub mod atom;
pub mod index;
pub mod rss;

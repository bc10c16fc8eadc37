//! The error taxonomy of the crawler: transport failures, cache storage
//! failures, extraction failures, and the shutdown of the pipeline's
//! channels, which callers treat differently from the first three.

use vstd::prelude::*;

verus! {

/// Why handling a request, or one call under it, failed.
#[derive(Debug)]
pub enum CrawlError {
    /// A network or transport failure from the HTTP client.
    Network(String),
    /// An I/O or schema failure from the response cache.
    Cache(String),
    /// A missing element or attribute, or malformed embedded data, on a
    /// scraped page: the whole request fails, with no partial success.
    Extract(String),
    /// A send or receive against a closed pipeline channel: the worker that
    /// sees it winds down instead of reporting a failed request.
    Closed,
}

impl CrawlError {
    /// A description of the failure for diagnostics.
    pub fn message(self) -> String {
        match self {
            CrawlError::Network(m) => m,
            CrawlError::Cache(m) => m,
            CrawlError::Extract(m) => m,
            CrawlError::Closed => String::from_str("pipeline closed"),
        }
    }
}

/// Wraps a description as an extraction failure.
pub fn extract_err(msg: &str) -> (r: CrawlError)
    ensures
        r is Extract,
{
    CrawlError::Extract(msg.to_owned())
}

} // verus!

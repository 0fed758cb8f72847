//! The two closed error taxonomies: what can go wrong building a client, and
//! what can go wrong performing one request.
use vstd::prelude::*;

verus! {

/// Why a client could not be built.
#[derive(Debug)]
pub enum ClientCreationError {
    /// The transport cannot carry the API key: it is not a legal header value.
    Http { detail: String },
    /// The base URL is not a syntactically valid absolute URL.
    Url { detail: String },
}

/// Why one request failed.
#[derive(Debug)]
pub enum RequestError {
    /// A transport failure, or a response with an error status; the status
    /// is given when a response arrived at all.
    Http { status: Option<u16>, detail: String },
    /// The response body could not be read as the expected JSON shape.
    Json { detail: String },
    /// A constructed URL was malformed (a caller-supplied path segment can
    /// carry URL-illegal characters).
    Url { detail: String },
}

} // verus!

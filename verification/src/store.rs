//! The local store adapter's decisions: the shape of a cached response, how
//! a lookup result degrades to a hit or a miss, and what a write to the
//! store is made of.

use vstd::prelude::*;
use vstd::string::*;
use crate::headers::{convert_headers, converted_headers};

verus! {

/// An HTTP version tag.
#[derive(Debug, Copy, Clone, PartialEq, Eq, Structural)]
#[non_exhaustive]
pub enum HttpVersion {
    /// HTTP Version 0.9
    Http09,
    /// HTTP Version 1.0
    Http10,
    /// HTTP Version 1.1
    Http11,
    /// HTTP Version 2.0
    H2,
    /// HTTP Version 3.0
    H3,
}

/// A basic generic type that represents an HTTP response.
#[derive(Debug, Clone)]
pub struct HttpResponse {
    /// HTTP response body.
    pub body: Vec<u8>,
    /// HTTP response headers, in the order they were given.
    pub headers: Vec<(String, String)>,
    /// HTTP response status code.
    pub status: u16,
    /// HTTP response url.
    pub url: String,
    /// HTTP response version.
    pub version: HttpVersion,
}

/// What a bounded-wait lookup in the local store came back with.
pub enum StoreLookup {
    /// The bounded wait elapsed before the store answered.
    TimedOut,
    /// The store itself failed; a failure degrades to a miss.
    Failed,
    /// The store holds no entry under the key.
    Miss,
    /// The store holds an entry: its body, and whether its policy is stale
    /// at the current wall clock.
    Hit { body: Vec<u8>, stale: bool },
}

/// Resolve a lookup to the body served from cache, if any: only a hit whose
/// policy is still fresh is served; a timeout, a store failure, a miss and a
/// stale entry all degrade to "not found".
pub fn resolve_cached_lookup(l: StoreLookup) -> (r: Option<Vec<u8>>)
    ensures
        match l {
            StoreLookup::Hit { body, stale } => if stale {
                r is None
            } else {
                (r matches Some(b) && b == body)
            },
            _ => r is None,
        },
{
    match l {
        StoreLookup::Hit { body, stale } => if stale {
            None
        } else {
            Some(body)
        },
        _ => None,
    }
}

/// Whether a string parses as an HTTP URI, as the http crate's URI parser
/// decides it: a function of the string alone.
pub uninterp spec fn uri_ok(s: Seq<char>) -> bool;

/// Whether a string is a valid HTTP method token, as the http crate's
/// method parser decides it: a function of the string alone.
pub uninterp spec fn method_ok(s: Seq<char>) -> bool;

/// Relies on http::uri::Uri's parser (the request side of a cache policy is
/// keyed by it): whether it accepts a string depends on the string alone.
#[verifier::external_body]
pub(crate) fn parse_uri_ok(s: &str) -> (r: bool)
    ensures
        r == uri_ok(s@),
{
    s.parse::<http::uri::Uri>().is_ok()
}

/// Relies on http::Method::from_bytes (reqwest::Method re-exports the
/// type): whether it accepts a string depends on the string alone.
#[verifier::external_body]
fn parse_method_ok(s: &str) -> (r: bool)
    ensures
        r == method_ok(s@),
{
    http::Method::from_bytes(s.as_bytes()).is_ok()
}

/// The status code recorded when the given one is out of range: 417.
pub const FALLBACK_STATUS: u16 = 417;

/// Whether a status code is one the http crate accepts: exactly 100..=999.
pub open spec fn status_in_range(s: u16) -> bool {
    100 <= s <= 999
}

/// The status actually recorded: the given one when it is a representable
/// status code, the fallback otherwise.
pub open spec fn effective_status_spec(s: u16) -> u16 {
    if status_in_range(s) { s } else { FALLBACK_STATUS }
}

/// The method actually used: the given one when the parser accepts it,
/// `GET` otherwise.
pub open spec fn effective_method_spec(m: Seq<char>) -> Seq<char> {
    if method_ok(m) { m } else { "GET"@ }
}

/// The status actually recorded for a synthetic response.
pub fn effective_status(s: u16) -> (r: u16)
    ensures
        r == effective_status_spec(s),
{
    if 100 <= s && s <= 999 { s } else { FALLBACK_STATUS }
}

/// The method actually used for a synthetic request.
pub fn effective_method(m: &str) -> (r: String)
    ensures
        r@ == effective_method_spec(m@),
{
    if parse_method_ok(m) {
        String::from_str(m)
    } else {
        String::from_str("GET")
    }
}

/// Everything a write to the local store is made of, computed from a
/// response record: the sanitised synthetic request/response pair that the
/// cache policy is derived from, and the effective method and status.
pub struct PreparedPut {
    /// The method of the synthetic request.
    pub method: String,
    /// The status of the synthetic response.
    pub status: u16,
    /// The sanitised request headers of the synthetic request.
    pub request_headers: Vec<(String, String)>,
    /// The sanitised response headers of the synthetic response.
    pub response_headers: Vec<(String, String)>,
}

/// Prepare a write of a fetched response into the local store: rejected
/// exactly when the record's URL does not parse as a URI (the write is then
/// skipped, never an error to the caller); otherwise the synthetic
/// request/response pair, with malformed headers dropped and out-of-range
/// method and status replaced by their fallbacks.
pub fn prepare_put(
    url: &str,
    method: &str,
    status: u16,
    request_headers: &Vec<(String, String)>,
    response_headers: &Vec<(String, String)>,
) -> (r: Option<PreparedPut>)
    ensures
        (r is Some) == uri_ok(url@),
        r matches Some(p) ==> {
            &&& p.method@ == effective_method_spec(method@)
            &&& p.status == effective_status_spec(status)
            &&& p.request_headers@ == converted_headers(request_headers@)
            &&& p.response_headers@ == converted_headers(response_headers@)
        },
{
    if parse_uri_ok(url) {
        Some(
            PreparedPut {
                method: effective_method(method),
                status: effective_status(status),
                request_headers: convert_headers(request_headers),
                response_headers: convert_headers(response_headers),
            },
        )
    } else {
        None
    }
}

} // verus!

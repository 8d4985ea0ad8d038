//! The remote sync client's compute: building the wire payload and the
//! endpoint for a push, deriving the endpoint for a site pull, and turning a
//! pulled payload back into a local store entry.

use vstd::prelude::*;
use vstd::string::*;
use base64::engine::Engine;
use crate::headers::{convert_headers, converted_headers};
use crate::keys;
use crate::store::{
    effective_method, effective_method_spec, effective_status, effective_status_spec, uri_ok,
    HttpVersion,
};
use crate::worker::DumpJob;

verus! {

/// The remote endpoint base URL used when none is configured.
pub fn default_endpoint() -> (r: String)
    ensures
        r@ == "http://127.0.0.1:8080"@,
{
    String::from_str("http://127.0.0.1:8080")
}

/// Payload shape for the remote hybrid cache server: one cached entry in
/// text-safe form, its body carried as base64.
#[derive(Debug)]
pub struct HybridCachePayload {
    /// Optional website-level key; the server derives it from the URL's
    /// host when absent.
    pub website_key: Option<String>,
    /// The entry's own cache key.
    pub resource_key: String,
    /// The entry's URL.
    pub url: String,
    /// The request method.
    pub method: String,
    /// The response status.
    pub status: u16,
    /// The request headers.
    pub request_headers: Vec<(String, String)>,
    /// The response headers.
    pub response_headers: Vec<(String, String)>,
    /// The response body, base64-encoded for JSON transport.
    pub body_base64: String,
}

/// The base64 text that the standard engine encodes a byte sequence to: a
/// function of the bytes alone.
pub uninterp spec fn b64_enc(b: Seq<u8>) -> Seq<char>;

/// What the standard base64 engine decodes a text to: the bytes, or nothing
/// when the text is not valid base64; a function of the text alone.
pub uninterp spec fn b64_dec(s: Seq<char>) -> Option<Seq<u8>>;

/// Relies on base64's STANDARD engine encode: the result is a function of
/// the input bytes alone.
#[verifier::external_body]
fn b64_encode(b: &Vec<u8>) -> (r: String)
    ensures
        r@ == b64_enc(b@),
{
    base64::engine::general_purpose::STANDARD.encode(b)
}

/// Relies on base64's STANDARD engine decode: it accepts or rejects a text
/// as a function of the text alone, and inverts the engine's encode — the
/// documented round trip.
#[verifier::external_body]
fn b64_decode(s: &str) -> (r: Option<Vec<u8>>)
    ensures
        match r {
            Some(v) => b64_dec(s@) == Some(v@) && (forall|b: Seq<u8>|
                s@ == b64_enc(b) ==> v@ == b),
            None => b64_dec(s@) is None && (forall|b: Seq<u8>| s@ != b64_enc(b)),
        },
{
    base64::engine::general_purpose::STANDARD.decode(s).ok()
}

/// Whether a string parses as a URL, as url::Url's parser decides it: a
/// function of the string alone.
pub uninterp spec fn url_ok(s: Seq<char>) -> bool;

/// The host component of a URL string, if it parses and has one: a function
/// of the string alone.
pub uninterp spec fn host_of(s: Seq<char>) -> Option<Seq<char>>;

/// Relies on url::Url::parse and url::Url::host_str: whether a string
/// parses as a URL, and which host the URL carries, depend on the string
/// alone. The outer option is the parse, the inner the host.
#[verifier::external_body]
fn parse_url_host(s: &str) -> (r: Option<Option<String>>)
    ensures
        (r is Some) == url_ok(s@),
        r matches Some(h) ==> match h {
            Some(hs) => host_of(s@) matches Some(x) && hs@ == x,
            None => host_of(s@) is None,
        },
{
    match url::Url::parse(s) {
        Ok(u) => Some(u.host_str().map(|h| h.to_string())),
        Err(_) => None,
    }
}

/// Whether a character is ASCII whitespace.
pub open spec fn is_ascii_ws(c: char) -> bool {
    c == ' ' || c == '\t' || c == '\n' || c == '\x0C' || c == '\r'
}

/// A sequence with its leading ASCII whitespace removed.
pub open spec fn trim_front(s: Seq<char>) -> Seq<char>
    decreases s.len(),
{
    if s.len() > 0 && is_ascii_ws(s[0]) {
        trim_front(s.drop_first())
    } else {
        s
    }
}

/// A sequence with its trailing ASCII whitespace removed.
pub open spec fn trim_back(s: Seq<char>) -> Seq<char>
    decreases s.len(),
{
    if s.len() > 0 && is_ascii_ws(s.last()) {
        trim_back(s.drop_last())
    } else {
        s
    }
}

/// A sequence with leading and trailing ASCII whitespace removed.
pub open spec fn ascii_trimmed(s: Seq<char>) -> Seq<char> {
    trim_back(trim_front(s))
}

/// Whether a character is ASCII whitespace, decided character by character.
fn is_ws_char(c: char) -> (r: bool)
    ensures
        r == is_ascii_ws(c),
{
    c == ' ' || c == '\t' || c == '\n' || c == '\x0C' || c == '\r'
}

/// A front-trimmed sequence is the subrange past its leading whitespace.
proof fn lemma_trim_front_subrange(s: Seq<char>, a: int)
    requires
        0 <= a <= s.len(),
        forall|j: int| 0 <= j < a ==> is_ascii_ws(s[j]),
        a == s.len() || !is_ascii_ws(s[a]),
    ensures
        trim_front(s) == s.subrange(a, s.len() as int),
    decreases a,
{
    if a == 0 {
        assert(s.subrange(0, s.len() as int) =~= s);
    } else {
        let t = s.drop_first();
        lemma_trim_front_subrange(t, a - 1);
        assert(t.subrange(a - 1, t.len() as int) =~= s.subrange(a, s.len() as int));
    }
}

/// A back-trimmed sequence is the subrange before its trailing whitespace.
proof fn lemma_trim_back_subrange(s: Seq<char>, b: int)
    requires
        0 <= b <= s.len(),
        forall|j: int| b <= j < s.len() ==> is_ascii_ws(s[j]),
        b == 0 || !is_ascii_ws(s[b - 1]),
    ensures
        trim_back(s) == s.subrange(0, b),
    decreases s.len() - b,
{
    if b == s.len() {
        assert(s.subrange(0, s.len() as int) =~= s);
    } else {
        let t = s.drop_last();
        lemma_trim_back_subrange(t, b);
        assert(t.subrange(0, b) =~= s.subrange(0, b));
    }
}

/// Remove leading and trailing ASCII whitespace from a string.
fn trim_ascii_ws(s: &str) -> (r: String)
    ensures
        r@ == ascii_trimmed(s@),
{
    let n = s.unicode_len();
    let mut a: usize = 0;
    while a < n && is_ws_char(s.get_char(a))
        invariant
            a <= n,
            n == s@.len(),
            forall|j: int| 0 <= j < a ==> is_ascii_ws(s@[j]),
        decreases n - a,
    {
        a += 1;
    }
    let mut b: usize = n;
    while b > a && is_ws_char(s.get_char(b - 1))
        invariant
            a <= b <= n,
            n == s@.len(),
            forall|j: int| b <= j < n ==> is_ascii_ws(s@[j]),
        decreases b,
    {
        b -= 1;
    }
    proof {
        lemma_trim_front_subrange(s@, a as int);
        let u = s@.subrange(a as int, s@.len() as int);
        lemma_trim_back_subrange(u, b - a as int);
        assert(u.subrange(0, b - a as int) =~= s@.subrange(a as int, b as int));
    }
    let out = s.substring_char(a, b);
    String::from_str(out)
}

/// Whether two strings hold the same characters.
fn str_eq(a: &str, b: &str) -> (r: bool)
    ensures
        r == (a@ == b@),
{
    a.to_owned().eq(&b.to_owned())
}

/// View of an optional owned string as an optional character sequence.
pub open spec fn opt_string_view(o: Option<String>) -> Option<Seq<char>> {
    match o {
        Some(s) => Some(s@),
        None => None,
    }
}

/// The base URL that a push or pull goes to: the configured default, also
/// when the override is the literal `true`; any other override, trimmed of
/// ASCII whitespace, replaces the base.
pub open spec fn resolved_base(configured: Seq<char>, override_target: Option<Seq<char>>) -> Seq<
    char,
> {
    match override_target {
        Some(r) => if r == "true"@ {
            configured
        } else {
            ascii_trimmed(r)
        },
        None => configured,
    }
}

/// Resolve the remote base URL from the configured default and an optional
/// override.
pub fn resolve_base_url(configured: &str, override_target: Option<&str>) -> (r: String)
    ensures
        r@ == resolved_base(configured@, keys::opt_view(override_target)),
{
    match override_target {
        Some(remote) => {
            if str_eq(remote, "true") {
                String::from_str(configured)
            } else {
                trim_ascii_ws(remote)
            }
        },
        None => String::from_str(configured),
    }
}

/// Copy a list of header pairs.
fn clone_pairs(v: &Vec<(String, String)>) -> (r: Vec<(String, String)>)
    ensures
        r@ == v@,
{
    let mut out: Vec<(String, String)> = Vec::new();
    let mut i: usize = 0;
    while i < v.len()
        invariant
            i <= v@.len(),
            out@ == v@.take(i as int),
        decreases v@.len() - i,
    {
        let entry = (v[i].0.clone(), v[i].1.clone());
        assert(entry == v@[i as int]);
        out.push(entry);
        proof {
            assert(out@ =~= v@.take(i + 1 as int));
        }
        i += 1;
    }
    proof {
        assert(v@.take(i as int) =~= v@);
    }
    out
}

/// One push to the remote cache server, ready to send: the resolved
/// endpoint, the site named in the identifying header, and the payload.
#[derive(Debug)]
pub struct PushRequest {
    /// Where the POST goes: `{base}/cache/index`.
    pub endpoint: String,
    /// The site named in the `x-cache-site` header.
    pub site: String,
    /// The entry being pushed.
    pub payload: HybridCachePayload,
}

/// Build the push of one dump job to the remote cache server: the payload
/// carries the job's entry with its body base64-encoded and the website key
/// derived from the URL's host, and the POST goes to `{base}/cache/index`
/// under the resolved base URL.
pub fn build_push_request(job: &DumpJob, configured_base: &str) -> (r: PushRequest)
    ensures
        r.endpoint@ == resolved_base(configured_base@, opt_string_view(job.dump_remote))
            + "/cache/index"@,
        r.site@ == job.cache_site@,
        r.payload.resource_key@ == job.cache_key@,
        r.payload.url@ == job.url@,
        r.payload.method@ == job.method@,
        r.payload.status == job.status,
        r.payload.request_headers@ == job.request_headers@,
        r.payload.response_headers@ == job.response_headers@,
        r.payload.body_base64@ == b64_enc(job.body@),
        url_ok(job.url@) ==> opt_string_view(r.payload.website_key) == host_of(job.url@),
        !url_ok(job.url@) ==> r.payload.website_key is None,
{
    let override_target: Option<&str> = match &job.dump_remote {
        Some(s) => Some(s.as_str()),
        None => None,
    };
    let base = resolve_base_url(configured_base, override_target);
    let endpoint = base.concat("/cache/index");
    let website_key: Option<String> = match parse_url_host(job.url.as_str()) {
        Some(h) => h,
        None => None,
    };
    let payload = HybridCachePayload {
        website_key,
        resource_key: job.cache_key.clone(),
        url: job.url.clone(),
        method: job.method.clone(),
        status: job.status,
        request_headers: clone_pairs(&job.request_headers),
        response_headers: clone_pairs(&job.response_headers),
        body_base64: b64_encode(&job.body),
    };
    PushRequest { endpoint, site: job.cache_site.clone(), payload }
}

/// One pull of a site's entries from the remote cache server, ready to
/// send: the site's cache key and the endpoint the GET goes to.
#[derive(Debug)]
pub struct SiteRequest {
    /// Where the GET goes: `{base}/cache/site/{key}`.
    pub endpoint: String,
    /// The site's cache key, derived as every cache key is.
    pub cache_key: String,
}

/// Build the pull of a site's entries: the key is derived from the target
/// URL and the optional authentication token, and the GET goes to
/// `{base}/cache/site/{key}` under the resolved base URL.
pub fn build_site_request(
    target_url: &str,
    auth: Option<&str>,
    remote: Option<&str>,
    configured_base: &str,
) -> (r: SiteRequest)
    ensures
        r.cache_key@ == keys::cache_key(target_url@, None, keys::opt_view(auth)),
        r.endpoint@ == resolved_base(configured_base@, keys::opt_view(remote)) + "/cache/site/"@
            + r.cache_key@,
{
    let cache_key = keys::create_cache_key_raw(target_url, None, auth);
    let base = resolve_base_url(configured_base, remote);
    let endpoint = base.concat("/cache/site/").concat(cache_key.as_str());
    SiteRequest { endpoint, cache_key }
}

/// Whether a remote response status counts as success: any 2xx.
pub fn remote_status_success(status: u16) -> (r: bool)
    ensures
        r == (200 <= status < 300),
{
    200 <= status && status < 300
}

/// Why a pulled payload could not be turned into a local store entry.
#[derive(Debug, Clone, Copy, PartialEq, Eq, Structural)]
pub enum SeedError {
    /// The payload's body is not valid base64.
    InvalidBody,
    /// The payload's URL does not parse as an HTTP URI.
    InvalidUri,
    /// The payload's URL does not parse as a URL.
    InvalidUrl,
}

/// A pulled payload turned back into everything a local store write needs:
/// the entry's key, its decoded body, and the sanitised synthetic
/// request/response pair its fresh policy is computed from. Entries seeded
/// from the remote server assume HTTP/1.1.
#[derive(Debug)]
pub struct SeedEntry {
    /// The store key: the payload's resource key.
    pub key: String,
    /// The entry's URL.
    pub url: String,
    /// The decoded response body.
    pub body: Vec<u8>,
    /// The method of the synthetic request.
    pub method: String,
    /// The status of the synthetic response.
    pub status: u16,
    /// The sanitised request headers of the synthetic request.
    pub request_headers: Vec<(String, String)>,
    /// The sanitised response headers of the synthetic response.
    pub response_headers: Vec<(String, String)>,
    /// The version recorded for the entry: always HTTP/1.1.
    pub version: HttpVersion,
}

/// Turn one pulled payload into a local store entry. It fails exactly when
/// the body is not valid base64 or the URL does not parse, naming the first
/// failure; each payload stands alone, so one bad payload never aborts the
/// seeding of the others. A payload whose body is the encoding of some
/// bytes and whose URL parses always seeds, and yields those very bytes.
pub fn seed_payload(p: &HybridCachePayload) -> (r: Result<SeedEntry, SeedError>)
    ensures
        (r is Ok) == (b64_dec(p.body_base64@) is Some && uri_ok(p.url@) && url_ok(p.url@)),
        b64_dec(p.body_base64@) is None ==> r == Err::<SeedEntry, SeedError>(
            SeedError::InvalidBody,
        ),
        b64_dec(p.body_base64@) is Some && !uri_ok(p.url@) ==> r == Err::<SeedEntry, SeedError>(
            SeedError::InvalidUri,
        ),
        b64_dec(p.body_base64@) is Some && uri_ok(p.url@) && !url_ok(p.url@) ==> r == Err::<
            SeedEntry,
            SeedError,
        >(SeedError::InvalidUrl),
        r matches Ok(e) ==> {
            &&& e.key@ == p.resource_key@
            &&& e.url@ == p.url@
            &&& Some(e.body@) == b64_dec(p.body_base64@)
            &&& e.method@ == effective_method_spec(p.method@)
            &&& e.status == effective_status_spec(p.status)
            &&& e.request_headers@ == converted_headers(p.request_headers@)
            &&& e.response_headers@ == converted_headers(p.response_headers@)
            &&& e.version == HttpVersion::Http11
        },
        forall|b: Seq<u8>|
            (p.body_base64@ == b64_enc(b) && uri_ok(p.url@) && url_ok(p.url@)) ==> (r matches Ok(
                e,
            ) && e.body@ == b),
{
    let body = match b64_decode(p.body_base64.as_str()) {
        Some(b) => b,
        None => {
            return Err(SeedError::InvalidBody);
        },
    };
    if !crate::store::parse_uri_ok(p.url.as_str()) {
        return Err(SeedError::InvalidUri);
    }
    match parse_url_host(p.url.as_str()) {
        Some(_) => {},
        None => {
            return Err(SeedError::InvalidUrl);
        },
    }
    Ok(
        SeedEntry {
            key: p.resource_key.clone(),
            url: p.url.clone(),
            body,
            method: effective_method(p.method.as_str()),
            status: effective_status(p.status),
            request_headers: convert_headers(&p.request_headers),
            response_headers: convert_headers(&p.response_headers),
            version: HttpVersion::Http11,
        },
    )
}

} // verus!

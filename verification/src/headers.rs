//! Tolerant header sanitisation: malformed header names or values are
//! dropped individually, and the scan gives up after a bounded number of
//! entries so that an adversarial header set cannot be walked without end.

use vstd::prelude::*;

verus! {

/// How many header entries are examined at most before the conversion gives
/// up; entries beyond the bound are ignored.
pub const MAX_SCANNED_HEADERS: usize = 1002;

/// Whether a string is a valid HTTP header name, as the header parser of the
/// http crate decides it: a function of the string alone.
pub uninterp spec fn header_name_ok(s: Seq<char>) -> bool;

/// Whether a string is a valid HTTP header value, as the header parser of
/// the http crate decides it: a function of the string alone.
pub uninterp spec fn header_value_ok(s: Seq<char>) -> bool;

/// Relies on http::header::HeaderName's parser (reqwest::header re-exports
/// it): whether it accepts a string depends on the string alone.
#[verifier::external_body]
fn parse_header_name_ok(s: &str) -> (r: bool)
    ensures
        r == header_name_ok(s@),
{
    s.parse::<http::header::HeaderName>().is_ok()
}

/// Relies on http::header::HeaderValue's parser (reqwest::header re-exports
/// it): whether it accepts a string depends on the string alone.
#[verifier::external_body]
fn parse_header_value_ok(s: &str) -> (r: bool)
    ensures
        r == header_value_ok(s@),
{
    s.parse::<http::header::HeaderValue>().is_ok()
}

/// Whether both halves of a header pair are well-formed.
pub open spec fn header_pair_ok(p: (String, String)) -> bool {
    header_name_ok(p.0@) && header_value_ok(p.1@)
}

/// The well-formedness predicate on header pairs, as one value, so that
/// every statement filters by the same function.
pub open spec fn header_pred() -> spec_fn((String, String)) -> bool {
    |p: (String, String)| header_pair_ok(p)
}

/// How many leading entries of a header list of length `n` are scanned.
pub open spec fn scan_len(n: nat) -> nat {
    if n <= MAX_SCANNED_HEADERS { n } else { MAX_SCANNED_HEADERS as nat }
}

/// The sanitised form of a header list: of the scanned prefix, exactly the
/// pairs whose name and value are both well-formed, in their given order.
pub open spec fn converted_headers(s: Seq<(String, String)>) -> Seq<(String, String)> {
    s.take(scan_len(s.len()) as int).filter(header_pred())
}

/// Convert a header list to the pairs fit for a header map: invalid entries
/// are dropped one by one, never aborting the whole conversion, and the scan
/// stops after a bounded number of entries.
pub fn convert_headers(headers: &Vec<(String, String)>) -> (r: Vec<(String, String)>)
    ensures
        r@ == converted_headers(headers@),
{
    let n = headers.len();
    let limit = if n < MAX_SCANNED_HEADERS { n } else { MAX_SCANNED_HEADERS };
    let mut out: Vec<(String, String)> = Vec::new();
    let mut index: usize = 0;
    while index < limit
        invariant
            limit == scan_len(headers@.len()),
            index <= limit,
            limit <= headers@.len(),
            out@ == headers@.take(index as int).filter(header_pred()),
        decreases limit - index,
    {
        let name_ok = parse_header_name_ok(headers[index].0.as_str());
        let value_ok = parse_header_value_ok(headers[index].1.as_str());
        proof {
            reveal_with_fuel(Seq::filter, 2);
            let pred = header_pred();
            let pre = headers@.take(index as int);
            let post = headers@.take(index + 1 as int);
            assert(post.drop_last() =~= pre);
            assert(post.last() == headers@[index as int]);
            if pred(post.last()) {
                assert(post.filter(pred) =~= pre.filter(pred).push(post.last()));
            } else {
                assert(post.filter(pred) =~= pre.filter(pred));
            }
        }
        if name_ok && value_ok {
            let entry = (headers[index].0.clone(), headers[index].1.clone());
            assert(entry == headers@[index as int]);
            out.push(entry);
        }
        index += 1;
    }
    proof {
        assert(headers@.take(index as int) =~= headers@.take(scan_len(headers@.len()) as int));
    }
    out
}

} // verus!

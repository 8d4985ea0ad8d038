//! Cache-key derivation: a deterministic string key built from the request
//! method, the URI and an optional authentication token.

use vstd::prelude::*;
use vstd::string::*;

verus! {

/// The method segment of a cache key: the given method, or `GET` when none
/// was supplied.
pub open spec fn key_method(method: Option<Seq<char>>) -> Seq<char> {
    match method {
        Some(m) => m,
        None => "GET"@,
    }
}

/// The cache key for a `(uri, method, auth)` triple: the method and the URI
/// joined by a colon, with the authentication token appended as a third
/// colon-joined segment when one is present.
pub open spec fn cache_key(
    uri: Seq<char>,
    method: Option<Seq<char>>,
    auth: Option<Seq<char>>,
) -> Seq<char> {
    match auth {
        Some(a) => key_method(method) + ":"@ + uri + ":"@ + a,
        None => key_method(method) + ":"@ + uri,
    }
}

/// View of an optional borrowed string as an optional character sequence.
pub open spec fn opt_view(o: Option<&str>) -> Option<Seq<char>> {
    match o {
        Some(s) => Some(s@),
        None => None,
    }
}

/// Create the cache key from the URI, an optional method override and an
/// optional authentication token.
pub fn create_cache_key_raw(
    uri: &str,
    override_method: Option<&str>,
    auth: Option<&str>,
) -> (r: String)
    ensures
        r@ == cache_key(uri@, opt_view(override_method), opt_view(auth)),
{
    let method: &str = match override_method {
        Some(m) => m,
        None => "GET",
    };
    let mut key = String::from_str(method);
    key.append(":");
    key.append(uri);
    if let Some(authentication) = auth {
        key.append(":");
        key.append(authentication);
    }
    key
}

/// Key derivation is deterministic: the key is a function of the triple.
pub proof fn lemma_cache_key_deterministic(
    u1: Seq<char>,
    u2: Seq<char>,
    m1: Option<Seq<char>>,
    m2: Option<Seq<char>>,
    a1: Option<Seq<char>>,
    a2: Option<Seq<char>>,
)
    requires
        u1 == u2,
        m1 == m2,
        a1 == a2,
    ensures
        cache_key(u1, m1, a1) == cache_key(u2, m2, a2),
{
}

/// Changing the URI alone changes the key.
pub proof fn lemma_cache_key_uri_injective(
    m: Option<Seq<char>>,
    a: Option<Seq<char>>,
    u1: Seq<char>,
    u2: Seq<char>,
)
    requires
        u1 != u2,
    ensures
        cache_key(u1, m, a) != cache_key(u2, m, a),
{
    let km = key_method(m);
    let base = km + ":"@;
    let k1 = cache_key(u1, m, a);
    let k2 = cache_key(u2, m, a);
    reveal_strlit(":");
    if k1 == k2 {
        match a {
            Some(aa) => {
                assert(k1 == base + u1 + ":"@ + aa);
                assert(k2 == base + u2 + ":"@ + aa);
                assert(u1.len() == u2.len());
                assert forall|i: int| 0 <= i < u1.len() implies u1[i] == u2[i] by {
                    assert(k1[base.len() + i] == u1[i]);
                    assert(k2[base.len() + i] == u2[i]);
                }
            },
            None => {
                assert(k1 == base + u1);
                assert(k2 == base + u2);
                assert(u1.len() == u2.len());
                assert forall|i: int| 0 <= i < u1.len() implies u1[i] == u2[i] by {
                    assert(k1[base.len() + i] == u1[i]);
                    assert(k2[base.len() + i] == u2[i]);
                }
            },
        }
        assert(u1 =~= u2);
    }
}

/// Changing the effective method alone changes the key.
pub proof fn lemma_cache_key_method_injective(
    u: Seq<char>,
    a: Option<Seq<char>>,
    m1: Option<Seq<char>>,
    m2: Option<Seq<char>>,
)
    requires
        key_method(m1) != key_method(m2),
    ensures
        cache_key(u, m1, a) != cache_key(u, m2, a),
{
    let km1 = key_method(m1);
    let km2 = key_method(m2);
    let k1 = cache_key(u, m1, a);
    let k2 = cache_key(u, m2, a);
    reveal_strlit(":");
    if k1 == k2 {
        match a {
            Some(aa) => {
                assert(k1 == km1 + ":"@ + u + ":"@ + aa);
                assert(k2 == km2 + ":"@ + u + ":"@ + aa);
                assert(km1.len() == km2.len());
                assert forall|i: int| 0 <= i < km1.len() implies km1[i] == km2[i] by {
                    assert(k1[i] == km1[i]);
                    assert(k2[i] == km2[i]);
                }
            },
            None => {
                assert(k1 == km1 + ":"@ + u);
                assert(k2 == km2 + ":"@ + u);
                assert(km1.len() == km2.len());
                assert forall|i: int| 0 <= i < km1.len() implies km1[i] == km2[i] by {
                    assert(k1[i] == km1[i]);
                    assert(k2[i] == km2[i]);
                }
            },
        }
        assert(km1 =~= km2);
    }
}

/// Changing the authentication token alone changes the key.
pub proof fn lemma_cache_key_auth_injective(
    u: Seq<char>,
    m: Option<Seq<char>>,
    a1: Seq<char>,
    a2: Seq<char>,
)
    requires
        a1 != a2,
    ensures
        cache_key(u, m, Some(a1)) != cache_key(u, m, Some(a2)),
{
    let km = key_method(m);
    let head = km + ":"@ + u + ":"@;
    let k1 = cache_key(u, m, Some(a1));
    let k2 = cache_key(u, m, Some(a2));
    reveal_strlit(":");
    if k1 == k2 {
        assert(k1 == head + a1);
        assert(k2 == head + a2);
        assert(a1.len() == a2.len());
        assert forall|i: int| 0 <= i < a1.len() implies a1[i] == a2[i] by {
            assert(k1[head.len() + i] == a1[i]);
            assert(k2[head.len() + i] == a2[i]);
        }
        assert(a1 =~= a2);
    }
}

/// A key derived without an authentication token never collides with one
/// derived with a token — an empty token included: the keyed forms differ
/// in length by at least the joining colon.
pub proof fn lemma_cache_key_auth_presence(u: Seq<char>, m: Option<Seq<char>>, a: Seq<char>)
    ensures
        cache_key(u, m, None) != cache_key(u, m, Some(a)),
{
    reveal_strlit(":");
    assert(cache_key(u, m, Some(a)).len() == cache_key(u, m, None).len() + 1 + a.len());
}

} // verus!

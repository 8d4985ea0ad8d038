use hybrid_cache::keys::create_cache_key_raw;

#[test]
fn key_defaults_to_get() {
    let k = create_cache_key_raw("https://example.com/", None, None);
    assert_eq!(k, "GET:https://example.com/");
}

#[test]
fn key_uses_method_override() {
    let k = create_cache_key_raw("https://example.com/", Some("POST"), None);
    assert_eq!(k, "POST:https://example.com/");
}

#[test]
fn key_appends_auth_segment() {
    let k = create_cache_key_raw("https://example.com/", None, Some("token-1"));
    assert_eq!(k, "GET:https://example.com/:token-1");
}

#[test]
fn key_changes_with_each_component() {
    let base = create_cache_key_raw("https://example.com/", Some("GET"), Some("a"));
    let other_uri = create_cache_key_raw("https://example.org/", Some("GET"), Some("a"));
    let other_method = create_cache_key_raw("https://example.com/", Some("PUT"), Some("a"));
    let other_auth = create_cache_key_raw("https://example.com/", Some("GET"), Some("b"));
    assert_ne!(base, other_uri);
    assert_ne!(base, other_method);
    assert_ne!(base, other_auth);
}

#[test]
fn omitted_auth_differs_from_empty_auth() {
    let without = create_cache_key_raw("https://example.com/", None, None);
    let empty = create_cache_key_raw("https://example.com/", None, Some(""));
    assert_ne!(without, empty);
    assert_eq!(empty, "GET:https://example.com/:");
}

#[test]
fn key_is_deterministic() {
    let a = create_cache_key_raw("https://example.com/x", Some("HEAD"), Some("t"));
    let b = create_cache_key_raw("https://example.com/x", Some("HEAD"), Some("t"));
    assert_eq!(a, b);
}

use hybrid_cache::headers::convert_headers;
use hybrid_cache::store::{prepare_put, resolve_cached_lookup, StoreLookup};

#[test]
fn fresh_hit_is_served() {
    let r = resolve_cached_lookup(StoreLookup::Hit { body: vec![1, 2, 3], stale: false });
    assert_eq!(r, Some(vec![1, 2, 3]));
}

#[test]
fn stale_hit_is_a_miss() {
    let r = resolve_cached_lookup(StoreLookup::Hit { body: vec![1, 2, 3], stale: true });
    assert_eq!(r, None);
}

#[test]
fn miss_timeout_and_failure_degrade_to_none() {
    assert_eq!(resolve_cached_lookup(StoreLookup::Miss), None);
    assert_eq!(resolve_cached_lookup(StoreLookup::TimedOut), None);
    assert_eq!(resolve_cached_lookup(StoreLookup::Failed), None);
}

#[test]
fn prepare_put_accepts_a_valid_record() {
    let req = vec![("accept".to_string(), "text/html".to_string())];
    let res = vec![("content-type".to_string(), "text/html".to_string())];
    let p = prepare_put("https://example.com/a", "GET", 200, &req, &res).unwrap();
    assert_eq!(p.method, "GET");
    assert_eq!(p.status, 200);
    assert_eq!(p.request_headers, req);
    assert_eq!(p.response_headers, res);
}

#[test]
fn prepare_put_rejects_a_bad_url() {
    let none = prepare_put("http://exa mple.com/", "GET", 200, &vec![], &vec![]);
    assert!(none.is_none());
}

#[test]
fn prepare_put_falls_back_on_bad_method_and_status() {
    let p = prepare_put("https://example.com/", "NOT A METHOD", 1000, &vec![], &vec![]).unwrap();
    assert_eq!(p.method, "GET");
    assert_eq!(p.status, 417);
    let q = prepare_put("https://example.com/", "PATCH", 99, &vec![], &vec![]).unwrap();
    assert_eq!(q.method, "PATCH");
    assert_eq!(q.status, 417);
}

#[test]
fn malformed_headers_are_dropped_individually() {
    let headers = vec![
        ("accept".to_string(), "text/html".to_string()),
        ("bad name".to_string(), "v".to_string()),
        ("x-ok".to_string(), "bad\nvalue".to_string()),
        ("x-also-ok".to_string(), "fine".to_string()),
    ];
    let out = convert_headers(&headers);
    assert_eq!(
        out,
        vec![
            ("accept".to_string(), "text/html".to_string()),
            ("x-also-ok".to_string(), "fine".to_string()),
        ]
    );
}

#[test]
fn header_scan_is_bounded() {
    let mut headers: Vec<(String, String)> = Vec::new();
    let mut i: usize = 0;
    while i < 1500 {
        headers.push((format!("x-h-{}", i), "v".to_string()));
        i += 1;
    }
    let out = convert_headers(&headers);
    assert_eq!(out.len(), 1002);
    assert_eq!(out[0].0, "x-h-0");
    assert_eq!(out[1001].0, "x-h-1001");
}

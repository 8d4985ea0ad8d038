use hybrid_cache::rewriter::{
    base_markup, continue_feeding, effective_chunk_size, finalize_rewrite, head_block_markup,
    href_is_absolute, insertion_markup, plan_rewrite, step, RewriteAction, RewriteEvent,
    RewritePlan, RewriteState, DEFAULT_STREAMING_CHUNK_SIZE, MIN_STREAMING_CHUNK_SIZE,
};

#[test]
fn absolute_base_is_kept_and_stops_rewriting() {
    // A document that already declares <base href="https://x/">.
    let (s, a) = step(
        RewriteState::NoBaseSeen,
        &RewriteEvent::BaseOpen { href: Some("https://x/".to_string()) },
    );
    assert_eq!(s, RewriteState::BaseAlreadyPresent);
    assert_eq!(a, RewriteAction::Keep);
    assert!(!continue_feeding(&s));
    // Closing tags afterwards insert nothing: no second base tag appears.
    let (s2, a2) = step(s, &RewriteEvent::HeadClose);
    assert_eq!(s2, RewriteState::BaseAlreadyPresent);
    assert_eq!(a2, RewriteAction::Keep);
    let (s3, a3) = step(s2, &RewriteEvent::HtmlClose);
    assert_eq!(s3, RewriteState::BaseAlreadyPresent);
    assert_eq!(a3, RewriteAction::Keep);
}

#[test]
fn relative_or_missing_base_is_removed() {
    let (s, a) = step(
        RewriteState::NoBaseSeen,
        &RewriteEvent::BaseOpen { href: Some("/relative".to_string()) },
    );
    assert_eq!(s, RewriteState::NoBaseSeen);
    assert_eq!(a, RewriteAction::RemoveElement);
    let (s2, a2) = step(RewriteState::NoBaseSeen, &RewriteEvent::BaseOpen { href: None });
    assert_eq!(s2, RewriteState::NoBaseSeen);
    assert_eq!(a2, RewriteAction::RemoveElement);
}

#[test]
fn head_close_inserts_exactly_once() {
    // <html><head></head><body>...</body></html>
    let (s, a) = step(RewriteState::NoBaseSeen, &RewriteEvent::HeadClose);
    assert_eq!(s, RewriteState::BaseInserted);
    assert_eq!(a, RewriteAction::InsertBase);
    let m = insertion_markup(&a, Some("https://example.com/")).unwrap();
    assert_eq!(m, "<base href=\"https://example.com/\">");
    // The later </html> inserts nothing more.
    let (s2, a2) = step(s, &RewriteEvent::HtmlClose);
    assert_eq!(s2, RewriteState::BaseInserted);
    assert_eq!(a2, RewriteAction::Keep);
    assert_eq!(insertion_markup(&a2, Some("https://example.com/")), None);
}

#[test]
fn headless_document_gets_a_synthesized_head() {
    // <html><body>x</body></html>: no head close ever fires.
    let (s, a) = step(RewriteState::NoBaseSeen, &RewriteEvent::HtmlClose);
    assert_eq!(s, RewriteState::BaseInserted);
    assert_eq!(a, RewriteAction::InsertHeadBase);
    let m = insertion_markup(&a, Some("https://example.com/")).unwrap();
    assert_eq!(m, "<head><base href=\"https://example.com/\"></head>");
    // A second closing tag inserts nothing: one insertion in total.
    let (_, a2) = step(s, &RewriteEvent::HtmlClose);
    assert_eq!(a2, RewriteAction::Keep);
}

#[test]
fn markup_builders_handle_a_missing_base_url() {
    assert_eq!(base_markup(None), "<base href=\"\">");
    assert_eq!(head_block_markup(None), "<head><base href=\"\"></head>");
}

#[test]
fn href_prefix_detection() {
    assert!(href_is_absolute("http://a/"));
    assert!(href_is_absolute("https://a/"));
    assert!(!href_is_absolute("ftp://a/"));
    assert!(!href_is_absolute("/x"));
    assert!(!href_is_absolute(""));
    assert!(!href_is_absolute("http:/"));
}

#[test]
fn empty_body_skips_the_tokenizer() {
    assert_eq!(plan_rewrite(0, None), RewritePlan::ReturnEmpty);
    match plan_rewrite(1, None) {
        RewritePlan::Stream { chunk_size } => assert_eq!(chunk_size, 16384),
        RewritePlan::ReturnEmpty => panic!("a non-empty body must be streamed"),
    }
}

#[test]
fn chunk_size_is_clamped_from_below() {
    assert_eq!(DEFAULT_STREAMING_CHUNK_SIZE, 16384);
    assert_eq!(MIN_STREAMING_CHUNK_SIZE, 10922);
    assert_eq!(effective_chunk_size(None), 16384);
    assert_eq!(effective_chunk_size(Some(1)), 10922);
    assert_eq!(effective_chunk_size(Some(10922)), 10922);
    assert_eq!(effective_chunk_size(Some(20000)), 20000);
}

#[test]
fn already_present_returns_the_original_text() {
    let original = b"<html><head><base href=\"https://x/\"></head><body>hi</body></html>";
    let out = finalize_rewrite(&RewriteState::BaseAlreadyPresent, original, b"ignored");
    assert_eq!(out.as_bytes(), original);
}

#[test]
fn already_present_with_undecodable_bytes_falls_back_to_empty() {
    let out = finalize_rewrite(&RewriteState::BaseAlreadyPresent, &[0xff, 0xfe, 0xfd], b"ignored");
    assert_eq!(out, "");
}

#[test]
fn rewritten_buffer_normalization_strips_a_byte_order_mark() {
    let out = finalize_rewrite(&RewriteState::BaseInserted, b"x", b"\xef\xbb\xbfhi");
    assert_eq!(out, "hi");
}

#[test]
fn rewritten_buffer_is_charset_normalized() {
    let buffer = b"<html><head><base href=\"https://example.com/\"></head></html>";
    let out = finalize_rewrite(&RewriteState::BaseInserted, b"original", buffer);
    assert_eq!(out.as_bytes(), buffer);
}

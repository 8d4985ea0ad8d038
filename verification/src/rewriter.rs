//! The base-tag rewrite engine applied to every cached page body.
//!
//! The rewrite is a state machine driven by the parse events that matter to
//! it: a `base` element being opened, the close of `head`, and the close of
//! `html`. The host tokenizer delivers the events; the decisions here settle
//! what each handler does, and guarantee that a base tag is inserted at most
//! once per document, and never when the document already declares an
//! absolute one.

use vstd::prelude::*;
use vstd::string::*;

verus! {

/// The default streaming chunk size for feeding the tokenizer.
pub const DEFAULT_STREAMING_CHUNK_SIZE: usize = 8192 * 2;

/// The smallest accepted chunk size: two thirds of the default, so that
/// pathologically small chunks cannot fragment tags across boundaries.
pub const MIN_STREAMING_CHUNK_SIZE: usize = DEFAULT_STREAMING_CHUNK_SIZE * 2 / 3;

/// Progress of the rewrite over one document.
#[derive(Clone, Copy, Debug, PartialEq, Eq, Structural)]
pub enum RewriteState {
    /// No usable base tag has been seen and none has been inserted yet.
    NoBaseSeen,
    /// The document already declares an absolute base: leave it untouched.
    BaseAlreadyPresent,
    /// A base tag has been inserted; no further insertion may happen.
    BaseInserted,
}

/// A parse event that the rewrite reacts to.
#[derive(Clone, Debug)]
pub enum RewriteEvent {
    /// A `base` element was opened, carrying its `href` attribute if any.
    BaseOpen { href: Option<String> },
    /// The closing tag of a `head` element is about to be emitted.
    HeadClose,
    /// The closing tag of an `html` element is about to be emitted.
    HtmlClose,
}

/// What the host must do with the element the event came from.
#[derive(Clone, Copy, Debug, PartialEq, Eq, Structural)]
pub enum RewriteAction {
    /// Emit the content unchanged.
    Keep,
    /// Remove this `base` element: a relative or missing href is treated as
    /// an absent base.
    RemoveElement,
    /// Insert `<base href="{base URL}">` immediately before the closing tag.
    InsertBase,
    /// Insert `<head><base href="{base URL}"></head>` immediately before the
    /// closing tag.
    InsertHeadBase,
}

/// Whether `p` is a prefix of `s`.
pub open spec fn has_prefix(s: Seq<char>, p: Seq<char>) -> bool {
    p.len() <= s.len() && s.subrange(0, p.len() as int) == p
}

/// Whether an href value declares an absolute HTTP or HTTPS base.
pub open spec fn is_absolute_http(s: Seq<char>) -> bool {
    has_prefix(s, "http://"@) || has_prefix(s, "https://"@)
}

/// The state after one event.
pub open spec fn step_state(s: RewriteState, ev: RewriteEvent) -> RewriteState {
    match s {
        RewriteState::NoBaseSeen => match ev {
            RewriteEvent::BaseOpen { href } => match href {
                Some(a) => if is_absolute_http(a@) {
                    RewriteState::BaseAlreadyPresent
                } else {
                    RewriteState::NoBaseSeen
                },
                None => RewriteState::NoBaseSeen,
            },
            RewriteEvent::HeadClose => RewriteState::BaseInserted,
            RewriteEvent::HtmlClose => RewriteState::BaseInserted,
        },
        _ => s,
    }
}

/// The action taken on one event.
pub open spec fn step_action(s: RewriteState, ev: RewriteEvent) -> RewriteAction {
    match s {
        RewriteState::NoBaseSeen => match ev {
            RewriteEvent::BaseOpen { href } => match href {
                Some(a) => if is_absolute_http(a@) {
                    RewriteAction::Keep
                } else {
                    RewriteAction::RemoveElement
                },
                None => RewriteAction::RemoveElement,
            },
            RewriteEvent::HeadClose => RewriteAction::InsertBase,
            RewriteEvent::HtmlClose => RewriteAction::InsertHeadBase,
        },
        _ => RewriteAction::Keep,
    }
}

/// Whether an action inserts a base tag.
pub open spec fn is_insert(a: RewriteAction) -> bool {
    a == RewriteAction::InsertBase || a == RewriteAction::InsertHeadBase
}

/// Whether `p` is a prefix of `s`, decided character by character.
pub fn str_has_prefix(s: &str, p: &str) -> (r: bool)
    ensures
        r == has_prefix(s@, p@),
{
    let s_len = s.unicode_len();
    let p_len = p.unicode_len();
    if p_len > s_len {
        assert(!has_prefix(s@, p@));
        return false;
    }
    let mut i: usize = 0;
    while i < p_len
        invariant
            i <= p_len,
            p_len == p@.len(),
            s_len == s@.len(),
            p_len <= s_len,
            forall|j: int| 0 <= j < i ==> s@[j] == p@[j],
        decreases p_len - i,
    {
        if s.get_char(i) != p.get_char(i) {
            assert(s@.subrange(0, p@.len() as int)[i as int] != p@[i as int]);
            return false;
        }
        i += 1;
    }
    assert(s@.subrange(0, p@.len() as int) =~= p@);
    true
}

/// Whether an href value declares an absolute HTTP or HTTPS base.
pub fn href_is_absolute(href: &str) -> (r: bool)
    ensures
        r == is_absolute_http(href@),
{
    str_has_prefix(href, "http://") || str_has_prefix(href, "https://")
}

/// One transition of the rewrite: from the current state and an event to the
/// next state and the action the host must carry out.
pub fn step(s: RewriteState, ev: &RewriteEvent) -> (r: (RewriteState, RewriteAction))
    ensures
        r.0 == step_state(s, *ev),
        r.1 == step_action(s, *ev),
{
    match s {
        RewriteState::NoBaseSeen => match ev {
            RewriteEvent::BaseOpen { href } => match href {
                Some(a) => {
                    if href_is_absolute(a.as_str()) {
                        (RewriteState::BaseAlreadyPresent, RewriteAction::Keep)
                    } else {
                        (RewriteState::NoBaseSeen, RewriteAction::RemoveElement)
                    }
                },
                None => (RewriteState::NoBaseSeen, RewriteAction::RemoveElement),
            },
            RewriteEvent::HeadClose => (RewriteState::BaseInserted, RewriteAction::InsertBase),
            RewriteEvent::HtmlClose => (RewriteState::BaseInserted, RewriteAction::InsertHeadBase),
        },
        _ => (s, RewriteAction::Keep),
    }
}

/// Whether the host should keep feeding chunks to the tokenizer: it stops as
/// soon as an absolute base was found in the source document.
pub fn continue_feeding(s: &RewriteState) -> (r: bool)
    ensures
        r == (*s != RewriteState::BaseAlreadyPresent),
{
    match s {
        RewriteState::BaseAlreadyPresent => false,
        _ => true,
    }
}

/// The state after a sequence of events.
pub open spec fn state_after(s: RewriteState, evs: Seq<RewriteEvent>) -> RewriteState
    decreases evs.len(),
{
    if evs.len() == 0 {
        s
    } else {
        state_after(step_state(s, evs[0]), evs.subrange(1, evs.len() as int))
    }
}

/// How many of the actions taken over a sequence of events insert a base tag.
pub open spec fn inserted_count(s: RewriteState, evs: Seq<RewriteEvent>) -> nat
    decreases evs.len(),
{
    if evs.len() == 0 {
        0nat
    } else {
        (if is_insert(step_action(s, evs[0])) { 1nat } else { 0nat })
            + inserted_count(step_state(s, evs[0]), evs.subrange(1, evs.len() as int))
    }
}

/// Once the rewrite has left `NoBaseSeen` it never returns there, and no
/// further event can produce an insertion.
pub proof fn lemma_no_insert_after_decision(s: RewriteState, evs: Seq<RewriteEvent>)
    requires
        s != RewriteState::NoBaseSeen,
    ensures
        inserted_count(s, evs) == 0,
        state_after(s, evs) == s,
    decreases evs.len(),
{
    if evs.len() > 0 {
        lemma_no_insert_after_decision(s, evs.subrange(1, evs.len() as int));
    }
}

/// Over any sequence of events, a base tag is inserted at most once.
pub proof fn lemma_insert_at_most_once(s: RewriteState, evs: Seq<RewriteEvent>)
    ensures
        inserted_count(s, evs) <= 1,
        s != RewriteState::NoBaseSeen ==> inserted_count(s, evs) == 0,
    decreases evs.len(),
{
    if s != RewriteState::NoBaseSeen {
        lemma_no_insert_after_decision(s, evs);
    } else if evs.len() > 0 {
        lemma_insert_at_most_once(step_state(s, evs[0]), evs.subrange(1, evs.len() as int));
    }
}

/// A document whose source already declared an absolute base is never
/// rewritten: if the run ends in `BaseAlreadyPresent`, no insertion happened
/// along the way.
pub proof fn lemma_already_present_means_untouched(evs: Seq<RewriteEvent>)
    requires
        state_after(RewriteState::NoBaseSeen, evs) == RewriteState::BaseAlreadyPresent,
    ensures
        inserted_count(RewriteState::NoBaseSeen, evs) == 0,
    decreases evs.len(),
{
    if evs.len() > 0 {
        let s1 = step_state(RewriteState::NoBaseSeen, evs[0]);
        let rest = evs.subrange(1, evs.len() as int);
        if s1 == RewriteState::BaseInserted {
            lemma_no_insert_after_decision(s1, rest);
            assert(state_after(RewriteState::NoBaseSeen, evs) == RewriteState::BaseInserted);
        } else if s1 == RewriteState::BaseAlreadyPresent {
            lemma_no_insert_after_decision(s1, rest);
            assert(!is_insert(step_action(RewriteState::NoBaseSeen, evs[0])));
        } else {
            lemma_already_present_means_untouched(rest);
        }
    }
}

/// An insertion happens exactly when the document carried no absolute base
/// of its own and a `head` or `html` element was closed: a run that ends in
/// `BaseInserted` inserted exactly once.
pub proof fn lemma_inserted_means_exactly_once(evs: Seq<RewriteEvent>)
    requires
        state_after(RewriteState::NoBaseSeen, evs) == RewriteState::BaseInserted,
    ensures
        inserted_count(RewriteState::NoBaseSeen, evs) == 1,
    decreases evs.len(),
{
    if evs.len() > 0 {
        let s1 = step_state(RewriteState::NoBaseSeen, evs[0]);
        let rest = evs.subrange(1, evs.len() as int);
        if s1 == RewriteState::BaseInserted {
            lemma_no_insert_after_decision(s1, rest);
        } else if s1 == RewriteState::BaseAlreadyPresent {
            lemma_no_insert_after_decision(s1, rest);
        } else {
            lemma_inserted_means_exactly_once(rest);
        }
    }
}

/// The markup inserted before a closing `head` tag.
pub open spec fn base_markup_spec(url: Seq<char>) -> Seq<char> {
    "<base href=\""@ + url + "\">"@
}

/// The markup inserted before a closing `html` tag of a head-less document.
pub open spec fn head_block_markup_spec(url: Seq<char>) -> Seq<char> {
    "<head>"@ + base_markup_spec(url) + "</head>"@
}

/// The base URL written into inserted markup: the given one, or empty.
pub open spec fn url_or_empty(url: Option<Seq<char>>) -> Seq<char> {
    match url {
        Some(u) => u,
        None => Seq::<char>::empty(),
    }
}

/// View of an optional borrowed string as an optional character sequence.
pub open spec fn opt_str_view(o: Option<&str>) -> Option<Seq<char>> {
    match o {
        Some(s) => Some(s@),
        None => None,
    }
}

/// Build the `<base href="{base URL}">` markup.
pub fn base_markup(base_url: Option<&str>) -> (r: String)
    ensures
        r@ == base_markup_spec(url_or_empty(opt_str_view(base_url))),
{
    let mut m = String::from_str("<base href=\"");
    if let Some(u) = base_url {
        m.append(u);
    } else {
        proof {
            assert(m@ + Seq::<char>::empty() =~= m@);
        }
    }
    m.append("\">");
    m
}

/// Build the `<head><base href="{base URL}"></head>` block for a head-less
/// document.
pub fn head_block_markup(base_url: Option<&str>) -> (r: String)
    ensures
        r@ == head_block_markup_spec(url_or_empty(opt_str_view(base_url))),
{
    let mut m = String::from_str("<head>");
    let inner = base_markup(base_url);
    m.append(inner.as_str());
    m.append("</head>");
    m
}

/// The markup that an action asks the host to insert, if any.
pub fn insertion_markup(action: &RewriteAction, base_url: Option<&str>) -> (r: Option<String>)
    ensures
        *action == RewriteAction::InsertBase ==> (r matches Some(m) && m@ == base_markup_spec(
            url_or_empty(opt_str_view(base_url)),
        )),
        *action == RewriteAction::InsertHeadBase ==> (r matches Some(m) && m@
            == head_block_markup_spec(url_or_empty(opt_str_view(base_url)))),
        !is_insert(*action) ==> r is None,
{
    match action {
        RewriteAction::InsertBase => Some(base_markup(base_url)),
        RewriteAction::InsertHeadBase => Some(head_block_markup(base_url)),
        _ => None,
    }
}

/// The chunk size actually used for streaming: the requested one, clamped
/// from below to the enforced minimum; the default when none was requested.
pub fn effective_chunk_size(requested: Option<usize>) -> (r: usize)
    ensures
        r == match requested {
            Some(v) => if v < MIN_STREAMING_CHUNK_SIZE {
                MIN_STREAMING_CHUNK_SIZE as int
            } else {
                v as int
            },
            None => DEFAULT_STREAMING_CHUNK_SIZE as int,
        },
        r >= MIN_STREAMING_CHUNK_SIZE,
{
    match requested {
        Some(v) => if v < MIN_STREAMING_CHUNK_SIZE {
            MIN_STREAMING_CHUNK_SIZE
        } else {
            v
        },
        None => DEFAULT_STREAMING_CHUNK_SIZE,
    }
}

/// How a body is to be rewritten.
#[derive(Clone, Copy, Debug, PartialEq, Eq, Structural)]
pub enum RewritePlan {
    /// An empty body: return an empty result at once, without engaging the
    /// tokenizer at all.
    ReturnEmpty,
    /// Stream the body through the tokenizer in chunks of the given size.
    Stream { chunk_size: usize },
}

/// Decide how a body of the given length is rewritten: only an empty body
/// skips the tokenizer.
pub fn plan_rewrite(body_len: usize, requested_chunk: Option<usize>) -> (r: RewritePlan)
    ensures
        (r == RewritePlan::ReturnEmpty) <==> body_len == 0,
        body_len > 0 ==> (r matches RewritePlan::Stream { chunk_size }
            && chunk_size >= MIN_STREAMING_CHUNK_SIZE),
{
    if body_len == 0 {
        RewritePlan::ReturnEmpty
    } else {
        RewritePlan::Stream { chunk_size: effective_chunk_size(requested_chunk) }
    }
}

/// The text that a byte sequence decodes to as UTF-8, or the empty text when
/// it is not valid UTF-8.
pub uninterp spec fn utf8_or_empty_of(b: Seq<u8>) -> Seq<char>;

/// The text produced by best-effort charset auto-detection over a byte
/// sequence; never fails, a function of the bytes alone.
pub uninterp spec fn auto_encoded(b: Seq<u8>) -> Seq<char>;

/// Relies on std's str::from_utf8: decodes the bytes when they are valid
/// UTF-8; the empty string stands in otherwise.
#[verifier::external_body]
fn decode_utf8_or_empty(b: &[u8]) -> (r: String)
    ensures
        r@ == utf8_or_empty_of(b@),
{
    std::str::from_utf8(b).unwrap_or_default().into()
}

/// Relies on auto_encoder::auto_encode_bytes: best-effort decoding of a byte
/// buffer to text with charset auto-detection, a function of the bytes alone.
#[verifier::external_body]
fn auto_encode(b: &[u8]) -> (r: String)
    ensures
        r@ == auto_encoded(b@),
{
    auto_encoder::auto_encode_bytes(b)
}

/// Produce the final text result of a rewrite: the original bytes decoded
/// as-is when the document already declared an absolute base (the rewrite
/// was a no-op), and the rewritten buffer normalised by charset
/// auto-detection otherwise.
pub fn finalize_rewrite(s: &RewriteState, original: &[u8], rewritten: &[u8]) -> (r: String)
    ensures
        *s == RewriteState::BaseAlreadyPresent ==> r@ == utf8_or_empty_of(original@),
        *s != RewriteState::BaseAlreadyPresent ==> r@ == auto_encoded(rewritten@),
{
    match s {
        RewriteState::BaseAlreadyPresent => decode_utf8_or_empty(original),
        _ => auto_encode(rewritten),
    }
}

} // verus!

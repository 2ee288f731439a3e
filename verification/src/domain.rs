//! Domain resolution: a cascade of cache, structured search reply, and HTML
//! search reply, first success wins.
//!
//! Outbound transport is the caller's concern.  `resolve_start` decides
//! whether a query is served from the cache or needs a fetch;
//! `resolve_after_api` and `resolve_after_html` consume the raw reply of the
//! respective tier, pick a candidate domain, and populate the cache on
//! success.  A transport failure is handed in as `None` and moves the
//! cascade on to the next tier.

use serde_json::Value;
use vstd::prelude::*;

verus! {

use vstd::string::StringSliceAdditionalSpecFns;

use crate::cache::{DomainCache, put_once};
use crate::text::{
    bytes_eq, contains_bytes, contains_sub, find_sub, find_sub_spec, lemma_find_sub_spec,
    match_at, opt_bytes_view, starts_with, starts_with_spec, trim_bytes, trim_spec, vecs_view,
};

// ---------------------------------------------------------------------------
// Request and reply shells
// ---------------------------------------------------------------------------

/// A domain search request: the free-text query.
pub struct SearchQuery {
    pub q: Vec<u8>,
}

/// A successful domain search reply.
pub struct SearchResult {
    pub domain: Vec<u8>,
}

/// The fields of the structured search provider's reply that the resolver
/// reads, in their priority order.
pub struct SearchFields {
    pub official: Option<Vec<u8>>,
    pub abstract_url: Option<Vec<u8>>,
    pub result_urls: Vec<Vec<u8>>,
}

impl View for SearchFields {
    type V = (Option<Seq<u8>>, Option<Seq<u8>>, Seq<Seq<u8>>);

    open spec fn view(&self) -> (Option<Seq<u8>>, Option<Seq<u8>>, Seq<Seq<u8>>) {
        (opt_bytes_view(self.official), opt_bytes_view(self.abstract_url), vecs_view(
            self.result_urls@,
        ))
    }
}

// ---------------------------------------------------------------------------
// Trusted views of the outside parsers
// ---------------------------------------------------------------------------

/// The lower-cased scheme and the host text of an absolute URL, where it has
/// both; `None` where it does not parse or has no host.
pub uninterp spec fn scheme_host_of(url: Seq<u8>) -> Option<(Seq<u8>, Seq<u8>)>;

/// Relies on `url::Url::parse`, `Url::scheme` and `Url::host_str`: parses an
/// absolute URL and returns its scheme (lower-cased by the crate) and host.
#[verifier::external_body]
fn url_scheme_host(u: &[u8]) -> (r: Option<(Vec<u8>, Vec<u8>)>)
    ensures
        match r {
            Some(p) => scheme_host_of(u@) == Some((p.0@, p.1@)),
            None => scheme_host_of(u@) is None,
        },
{
    let text = match std::str::from_utf8(u) {
        Ok(t) => t,
        Err(_) => return None,
    };
    let parsed = match url::Url::parse(text) {
        Ok(p) => p,
        Err(_) => return None,
    };
    let host = match parsed.host_str() {
        Some(h) => h,
        None => return None,
    };
    Some((parsed.scheme().as_bytes().to_vec(), host.as_bytes().to_vec()))
}

/// The percent-decoding of `s`.
pub uninterp spec fn percent_decoded(s: Seq<u8>) -> Seq<u8>;

/// Relies on `urlencoding::decode_binary`: replaces each valid `%xx` escape
/// by its byte and keeps everything else.
#[verifier::external_body]
fn percent_decode(s: &[u8]) -> (r: Vec<u8>)
    ensures
        r@ == percent_decoded(s@),
{
    urlencoding::decode_binary(s).into_owned()
}

/// The href attributes of the result-link elements of a search result page,
/// in document order.
pub uninterp spec fn result_hrefs_of(html: Seq<u8>) -> Seq<Seq<u8>>;

/// Relies on `scraper::Html::parse_document` and `Selector` matching: the
/// `href` attribute of each element matching the known result-link markers,
/// in document order.
#[verifier::external_body]
fn collect_result_hrefs(html: &[u8]) -> (r: Vec<Vec<u8>>)
    ensures
        vecs_view(r@) == result_hrefs_of(html@),
{
    let text = match std::str::from_utf8(html) {
        Ok(t) => t,
        Err(_) => return Vec::new(),
    };
    let document = scraper::Html::parse_document(text);
    let selector = match scraper::Selector::parse(".result__a, .result__url, .links_main a") {
        Ok(sel) => sel,
        Err(_) => return Vec::new(),
    };
    document.select(&selector).filter_map(|el| el.value().attr("href")).map(
        |h| h.as_bytes().to_vec(),
    ).collect()
}

/// The fields a structured search reply carries: the "OfficialWebsite"
/// string, the "AbstractURL" string, and each "Results[i].FirstURL" string.
pub uninterp spec fn search_fields_of(text: Seq<u8>) -> (
    Option<Seq<u8>>,
    Option<Seq<u8>>,
    Seq<Seq<u8>>,
);

/// Relies on `serde_json::from_str` and `Value`'s accessors: reads the
/// reply's "OfficialWebsite" and "AbstractURL" strings and every
/// "Results[i].FirstURL" string, in order.
#[verifier::external_body]
fn parse_search_fields(text: &[u8]) -> (r: SearchFields)
    ensures
        r@ == search_fields_of(text@),
{
    let mut f = SearchFields { official: None, abstract_url: None, result_urls: Vec::new() };
    let Ok(t) = std::str::from_utf8(text) else { return f };
    let Ok(v) = serde_json::from_str::<Value>(t) else { return f };
    let get = |n: &str| v.get(n).and_then(|x| x.as_str()).map(|s| s.as_bytes().to_vec());
    f.official = get("OfficialWebsite");
    f.abstract_url = get("AbstractURL");
    for r in v.get("Results").and_then(|x| x.as_array()).into_iter().flatten() {
        if let Some(u) = r.get("FirstURL").and_then(|x| x.as_str()) {
            f.result_urls.push(u.as_bytes().to_vec());
        }
    }
    f
}

// ---------------------------------------------------------------------------
// Outcome of a resolution
// ---------------------------------------------------------------------------

/// Which cascade tier produced a resolved domain.
#[derive(Clone, Copy, Debug, PartialEq, Eq, Structural)]
pub enum SourceTier {
    Cache,
    Api,
    Html,
}

/// Result of a full cascade: a domain with its source tier, or nothing.
pub enum ResolutionOutcome {
    Found { domain: Vec<u8>, source: SourceTier },
    NotFound,
}

pub enum OutcomeView {
    Found { domain: Seq<u8>, source: SourceTier },
    NotFound,
}

impl View for ResolutionOutcome {
    type V = OutcomeView;

    open spec fn view(&self) -> OutcomeView {
        match self {
            ResolutionOutcome::Found { domain, source } => (OutcomeView::Found {
                domain: domain@,
                source: *source,
            }),
            ResolutionOutcome::NotFound => OutcomeView::NotFound,
        }
    }
}

/// What the caller must do next: serve a finished outcome, reject the
/// request, or perform the named outbound fetch and report its reply back.
pub enum DomainStep {
    Resolved(ResolutionOutcome),
    InvalidInput,
    FetchApi(Vec<u8>),
    FetchHtml(Vec<u8>),
}

pub enum StepView {
    Resolved(OutcomeView),
    InvalidInput,
    FetchApi(Seq<u8>),
    FetchHtml(Seq<u8>),
}

impl View for DomainStep {
    type V = StepView;

    open spec fn view(&self) -> StepView {
        match self {
            DomainStep::Resolved(o) => StepView::Resolved(o@),
            DomainStep::InvalidInput => StepView::InvalidInput,
            DomainStep::FetchApi(q) => StepView::FetchApi(q@),
            DomainStep::FetchHtml(q) => StepView::FetchHtml(q@),
        }
    }
}

// ---------------------------------------------------------------------------
// Candidate selection from the structured reply
// ---------------------------------------------------------------------------

/// The non-empty host of `u`, where `u` parses as an absolute URL.
pub open spec fn host_of(u: Seq<u8>) -> Option<Seq<u8>> {
    match scheme_host_of(u) {
        Some(p) => if p.1.len() > 0 {
            Some(p.1)
        } else {
            None
        },
        None => None,
    }
}

/// What one optional candidate URL yields: the non-empty host of a
/// non-empty URL.  Both the official-site tier and each secondary result
/// are judged by this rule.
pub open spec fn url_host_pick(o: Option<Seq<u8>>) -> Option<Seq<u8>> {
    match o {
        Some(u) => if u.len() > 0 {
            host_of(u)
        } else {
            None
        },
        None => None,
    }
}

/// Second tier: the abstract URL, rejected when its host belongs to the
/// generic encyclopedia domain.
pub open spec fn abstract_pick(a: Option<Seq<u8>>) -> Option<Seq<u8>> {
    match a {
        Some(u) => if u.len() > 0 {
            match host_of(u) {
                Some(h) => if !contains_sub(h, "wikipedia.org".spec_bytes()) {
                    Some(h)
                } else {
                    None
                },
                None => None,
            }
        } else {
            None
        },
        None => None,
    }
}

/// Third tier: the first secondary-result URL with a usable host.
pub open spec fn results_pick(rs: Seq<Seq<u8>>) -> Option<Seq<u8>>
    decreases rs.len(),
{
    if rs.len() == 0 {
        None
    } else {
        match url_host_pick(Some(rs[0])) {
            Some(h) => Some(h),
            None => results_pick(rs.skip(1)),
        }
    }
}

/// The domain a structured search reply yields, tiers in priority order.
pub open spec fn api_pick(f: (Option<Seq<u8>>, Option<Seq<u8>>, Seq<Seq<u8>>)) -> Option<Seq<u8>> {
    if url_host_pick(f.0) is Some {
        url_host_pick(f.0)
    } else if abstract_pick(f.1) is Some {
        abstract_pick(f.1)
    } else {
        results_pick(f.2)
    }
}

/// Extracts the non-empty host of a non-empty candidate URL.
fn candidate_host(u: &[u8]) -> (r: Option<Vec<u8>>)
    ensures
        opt_bytes_view(r) == url_host_pick(Some(u@)),
{
    if u.len() == 0 {
        return None;
    }
    match url_scheme_host(u) {
        Some(p) => {
            if p.1.len() > 0 {
                Some(p.1)
            } else {
                None
            }
        },
        None => None,
    }
}

/// Picks the winning domain out of a structured search reply's fields.
pub fn pick_api_candidate(fields: &SearchFields) -> (r: Option<Vec<u8>>)
    ensures
        opt_bytes_view(r) == api_pick(fields@),
{
    if let Some(u) = &fields.official {
        if u.len() > 0 {
            if let Some(p) = url_scheme_host(u.as_slice()) {
                if p.1.len() > 0 {
                    return Some(p.1);
                }
            }
        }
    }
    assert(url_host_pick(fields@.0) is None);
    if let Some(u) = &fields.abstract_url {
        if u.len() > 0 {
            if let Some(p) = url_scheme_host(u.as_slice()) {
                if p.1.len() > 0 {
                    if !contains_bytes(p.1.as_slice(), "wikipedia.org".as_bytes()) {
                        return Some(p.1);
                    }
                }
            }
        }
    }
    assert(abstract_pick(fields@.1) is None);
    let n = fields.result_urls.len();
    let mut i: usize = 0;
    assert(vecs_view(fields.result_urls@).skip(0) =~= vecs_view(fields.result_urls@));
    while i < n
        invariant
            n == fields.result_urls@.len(),
            i <= n,
            url_host_pick(fields@.0) is None,
            abstract_pick(fields@.1) is None,
            results_pick(vecs_view(fields.result_urls@)) == results_pick(
                vecs_view(fields.result_urls@).skip(i as int),
            ),
        decreases n - i,
    {
        let ghost rest = vecs_view(fields.result_urls@).skip(i as int);
        assert(rest[0] == fields.result_urls@[i as int]@);
        let c = candidate_host(fields.result_urls[i].as_slice());
        if let Some(h) = c {
            return Some(h);
        }
        assert(rest.skip(1) =~= vecs_view(fields.result_urls@).skip(i + 1 as int));
        i = i + 1;
    }
    None
}

// ---------------------------------------------------------------------------
// Candidate selection from the HTML reply
// ---------------------------------------------------------------------------

/// The target URL a result link points at: an internal redirect link has its
/// percent-encoded destination parameter decoded, any other href is taken
/// as it stands.
pub open spec fn candidate_url_of(href: Seq<u8>) -> Option<Seq<u8>> {
    if starts_with_spec(href, "/l/".spec_bytes()) {
        match find_sub_spec(href, "uddg=".spec_bytes()) {
            Some(i) => {
                let enc = href.skip(i + "uddg=".spec_bytes().len() as int);
                let end = match find_sub_spec(enc, "&".spec_bytes()) {
                    Some(e) => e,
                    None => enc.len() as int,
                };
                Some(percent_decoded(enc.take(end)))
            },
            None => None,
        }
    } else {
        Some(href)
    }
}

/// The domain a single result link yields: its target URL's non-empty host,
/// unless the host belongs to the search provider itself or the scheme is
/// not http or https.
pub open spec fn html_link_pick(href: Seq<u8>) -> Option<Seq<u8>> {
    match candidate_url_of(href) {
        Some(u) => match scheme_host_of(u) {
            Some(p) => if p.1.len() > 0 && !contains_sub(p.1, "duckduckgo.com".spec_bytes()) && (
            p.0 == "http".spec_bytes() || p.0 == "https".spec_bytes()) {
                Some(p.1)
            } else {
                None
            },
            None => None,
        },
        None => None,
    }
}

/// The domain an HTML search reply yields: the first link that passes.
pub open spec fn html_pick(hrefs: Seq<Seq<u8>>) -> Option<Seq<u8>>
    decreases hrefs.len(),
{
    if hrefs.len() == 0 {
        None
    } else {
        match html_link_pick(hrefs[0]) {
            Some(h) => Some(h),
            None => html_pick(hrefs.skip(1)),
        }
    }
}

/// Recovers the target URL of one result link.
fn candidate_url(href: &[u8]) -> (r: Option<Vec<u8>>)
    ensures
        opt_bytes_view(r) == candidate_url_of(href@),
{
    let redirect_prefix = "/l/".as_bytes();
    if starts_with(href, redirect_prefix) {
        let marker = "uddg=".as_bytes();
        match find_sub(href, marker) {
            Some(i) => {
                proof {
                    lemma_find_sub_spec(href@, marker@);
                }
                assert(match_at(href@, marker@, i as int));
                let n = href.len();
                assert(i + marker@.len() <= n);
                let enc = vstd::slice::slice_subrange(href, i + marker.len(), n);
                assert(enc@ =~= href@.skip(i + marker@.len() as int));
                let amp = "&".as_bytes();
                let end = match find_sub(enc, amp) {
                    Some(e) => {
                        proof {
                            lemma_find_sub_spec(enc@, amp@);
                        }
                        assert(match_at(enc@, amp@, e as int));
                        e
                    },
                    None => enc.len(),
                };
                assert(end <= enc@.len());
                let trimmed = vstd::slice::slice_subrange(enc, 0, end);
                assert(trimmed@ =~= enc@.take(end as int));
                Some(percent_decode(trimmed))
            },
            None => None,
        }
    } else {
        Some(vstd::slice::slice_to_vec(href))
    }
}

/// Applies the link filter to one href.
fn html_link_candidate(href: &[u8]) -> (r: Option<Vec<u8>>)
    ensures
        opt_bytes_view(r) == html_link_pick(href@),
{
    let u = match candidate_url(href) {
        Some(u) => u,
        None => {
            return None;
        },
    };
    match url_scheme_host(u.as_slice()) {
        Some(p) => {
            if p.1.len() > 0 && !contains_bytes(p.1.as_slice(), "duckduckgo.com".as_bytes()) && (
            bytes_eq(p.0.as_slice(), "http".as_bytes()) || bytes_eq(
                p.0.as_slice(),
                "https".as_bytes(),
            )) {
                Some(p.1)
            } else {
                None
            }
        },
        None => None,
    }
}

/// Picks the winning domain out of an HTML search reply's result links.
pub fn pick_html_candidate(hrefs: &Vec<Vec<u8>>) -> (r: Option<Vec<u8>>)
    ensures
        opt_bytes_view(r) == html_pick(vecs_view(hrefs@)),
{
    let n = hrefs.len();
    let mut i: usize = 0;
    assert(vecs_view(hrefs@).skip(0) =~= vecs_view(hrefs@));
    while i < n
        invariant
            n == hrefs@.len(),
            i <= n,
            html_pick(vecs_view(hrefs@)) == html_pick(vecs_view(hrefs@).skip(i as int)),
        decreases n - i,
    {
        let ghost rest = vecs_view(hrefs@).skip(i as int);
        assert(rest[0] == hrefs@[i as int]@);
        let c = html_link_candidate(hrefs[i].as_slice());
        if let Some(h) = c {
            return Some(h);
        }
        assert(rest.skip(1) =~= vecs_view(hrefs@).skip(i + 1 as int));
        i = i + 1;
    }
    None
}

// ---------------------------------------------------------------------------
// The cascade's step functions
// ---------------------------------------------------------------------------

/// The first step for a query: reject empty text, serve a cache hit, or ask
/// for the structured fetch.
pub open spec fn resolve_start_spec(m: Map<Seq<u8>, Seq<u8>>, q: Seq<u8>) -> StepView {
    let t = trim_spec(q);
    if t.len() == 0 {
        StepView::InvalidInput
    } else if m.contains_key(t) {
        StepView::Resolved(
            OutcomeView::Found { domain: m[t], source: SourceTier::Cache },
        )
    } else {
        StepView::FetchApi(t)
    }
}

/// Begins a resolution: no outbound fetch is requested unless the trimmed
/// query is absent from the cache.
pub fn resolve_start(cache: &DomainCache, req: &SearchQuery) -> (r: DomainStep)
    requires
        cache.wf(),
    ensures
        r@ == resolve_start_spec(cache@, req.q@),
{
    let t = trim_bytes(req.q.as_slice());
    if t.len() == 0 {
        return DomainStep::InvalidInput;
    }
    match cache.lookup(t.as_slice()) {
        Some(d) => DomainStep::Resolved(
            ResolutionOutcome::Found { domain: d, source: SourceTier::Cache },
        ),
        None => DomainStep::FetchApi(t),
    }
}

/// What the structured reply tier yields for an optional raw reply.
pub open spec fn api_reply_pick(reply: Option<Seq<u8>>) -> Option<Seq<u8>> {
    match reply {
        Some(t) => api_pick(search_fields_of(t)),
        None => None,
    }
}

/// The step after the structured fetch: its resulting step and cache.
pub open spec fn api_step_spec(m: Map<Seq<u8>, Seq<u8>>, q: Seq<u8>, reply: Option<Seq<u8>>) -> (
    StepView,
    Map<Seq<u8>, Seq<u8>>,
) {
    match api_reply_pick(reply) {
        Some(d) => (
            StepView::Resolved(OutcomeView::Found { domain: d, source: SourceTier::Api }),
            put_once(m, q, d),
        ),
        None => (StepView::FetchHtml(q), m),
    }
}

/// Consumes the structured tier's raw reply (`None` for a transport
/// failure): on a winning candidate the domain is cached and served, else
/// the cascade moves to the HTML fetch.
pub fn resolve_after_api(cache: &mut DomainCache, query: &[u8], reply: Option<&Vec<u8>>) -> (r:
    DomainStep)
    requires
        old(cache).wf(),
    ensures
        final(cache).wf(),
        (r@, final(cache)@) == api_step_spec(
            old(cache)@,
            query@,
            match reply {
                Some(t) => Some(t@),
                None => None,
            },
        ),
{
    let picked: Option<Vec<u8>> = match reply {
        Some(t) => {
            let fields = parse_search_fields(t.as_slice());
            pick_api_candidate(&fields)
        },
        None => None,
    };
    match picked {
        Some(d) => {
            cache.store(query, d.as_slice());
            DomainStep::Resolved(
                ResolutionOutcome::Found { domain: d, source: SourceTier::Api },
            )
        },
        None => DomainStep::FetchHtml(vstd::slice::slice_to_vec(query)),
    }
}

/// What the HTML tier yields for an optional raw reply.
pub open spec fn html_reply_pick(reply: Option<Seq<u8>>) -> Option<Seq<u8>> {
    match reply {
        Some(h) => html_pick(result_hrefs_of(h)),
        None => None,
    }
}

/// The step after the HTML fetch: its resulting outcome and cache.
pub open spec fn html_step_spec(m: Map<Seq<u8>, Seq<u8>>, q: Seq<u8>, reply: Option<Seq<u8>>) -> (
    OutcomeView,
    Map<Seq<u8>, Seq<u8>>,
) {
    match html_reply_pick(reply) {
        Some(d) => (
            OutcomeView::Found { domain: d, source: SourceTier::Html },
            put_once(m, q, d),
        ),
        None => (OutcomeView::NotFound, m),
    }
}

/// Consumes the HTML tier's raw reply, the last tier: on a winning link the
/// domain is cached and served, else the whole cascade ends in `NotFound`.
/// `NotFound` writes nothing, so the next call retries the providers.
pub fn resolve_after_html(cache: &mut DomainCache, query: &[u8], reply: Option<&Vec<u8>>) -> (r:
    ResolutionOutcome)
    requires
        old(cache).wf(),
    ensures
        final(cache).wf(),
        (r@, final(cache)@) == html_step_spec(
            old(cache)@,
            query@,
            match reply {
                Some(t) => Some(t@),
                None => None,
            },
        ),
{
    let picked: Option<Vec<u8>> = match reply {
        Some(h) => {
            let hrefs = collect_result_hrefs(h.as_slice());
            pick_html_candidate(&hrefs)
        },
        None => None,
    };
    match picked {
        Some(d) => {
            cache.store(query, d.as_slice());
            ResolutionOutcome::Found { domain: d, source: SourceTier::Html }
        },
        None => ResolutionOutcome::NotFound,
    }
}

/// The reply shell for a finished outcome: a result exactly for `Found`.
pub fn search_result_of(outcome: &ResolutionOutcome) -> (r: Option<SearchResult>)
    ensures
        match r {
            Some(res) => outcome@ matches OutcomeView::Found { domain, .. } && res.domain@
                == domain,
            None => outcome@ is NotFound,
        },
{
    match outcome {
        ResolutionOutcome::Found { domain, .. } => Some(
            SearchResult { domain: vstd::slice::slice_to_vec(domain.as_slice()) },
        ),
        ResolutionOutcome::NotFound => None,
    }
}

// ---------------------------------------------------------------------------
// The cache-hit law
// ---------------------------------------------------------------------------

/// A query resolved successfully once is afterwards answered from the cache:
/// both outbound tiers store the domain under the trimmed query on success,
/// and the next start step for the identical query text serves that entry
/// with `source == Cache`, asking for no outbound fetch.
pub proof fn lemma_second_resolution_is_cache_hit(
    m: Map<Seq<u8>, Seq<u8>>,
    q: Seq<u8>,
    d: Seq<u8>,
)
    requires
        trim_spec(q).len() > 0,
        !m.contains_key(trim_spec(q)),
    ensures
        resolve_start_spec(put_once(m, trim_spec(q), d), q) == StepView::Resolved(
            (OutcomeView::Found { domain: d, source: SourceTier::Cache }),
        ),
{
}

} // verus!

use wallet_enrich::cache::DomainCache;
use wallet_enrich::domain::{
    resolve_after_api, resolve_after_html, resolve_start, search_result_of, DomainStep,
    ResolutionOutcome, SearchQuery, SourceTier,
};

fn start_fetch_query(cache: &DomainCache, text: &[u8]) -> Vec<u8> {
    let req = SearchQuery { q: text.to_vec() };
    match resolve_start(cache, &req) {
        DomainStep::FetchApi(t) => t,
        _ => panic!("expected the structured fetch step"),
    }
}

#[test]
fn empty_query_is_invalid_input() {
    let cache = DomainCache::new();
    let req = SearchQuery { q: b"   ".to_vec() };
    assert!(matches!(resolve_start(&cache, &req), DomainStep::InvalidInput));
}

#[test]
fn query_is_trimmed_before_the_cascade() {
    let cache = DomainCache::new();
    let req = SearchQuery { q: b"  example  ".to_vec() };
    match resolve_start(&cache, &req) {
        DomainStep::FetchApi(t) => assert_eq!(t, b"example".to_vec()),
        _ => panic!("expected the structured fetch step"),
    }
}

#[test]
fn first_url_of_results_resolves() {
    let mut cache = DomainCache::new();
    let query = start_fetch_query(&cache, b"example");
    let body = b"{\"Results\":[{\"FirstURL\":\"https://example.org/path\"}]}".to_vec();
    match resolve_after_api(&mut cache, &query, Some(&body)) {
        DomainStep::Resolved(ResolutionOutcome::Found { domain, source }) => {
            assert_eq!(domain, b"example.org".to_vec());
            assert_eq!(source, SourceTier::Api);
        }
        _ => panic!("expected a resolved domain"),
    }
}

#[test]
fn official_website_wins_over_later_tiers() {
    let mut cache = DomainCache::new();
    let query = start_fetch_query(&cache, b"acme");
    let body = b"{\"OfficialWebsite\":\"https://acme.com/\",\"AbstractURL\":\"https://other.net/\",\"Results\":[{\"FirstURL\":\"https://third.io/\"}]}".to_vec();
    match resolve_after_api(&mut cache, &query, Some(&body)) {
        DomainStep::Resolved(ResolutionOutcome::Found { domain, .. }) => {
            assert_eq!(domain, b"acme.com".to_vec());
        }
        _ => panic!("expected a resolved domain"),
    }
}

#[test]
fn encyclopedia_abstract_url_falls_through() {
    let mut cache = DomainCache::new();
    let query = start_fetch_query(&cache, b"thing");
    let body = b"{\"AbstractURL\":\"https://en.wikipedia.org/wiki/Thing\",\"Results\":[{\"FirstURL\":\"https://example.com/\"}]}".to_vec();
    match resolve_after_api(&mut cache, &query, Some(&body)) {
        DomainStep::Resolved(ResolutionOutcome::Found { domain, source }) => {
            assert_eq!(domain, b"example.com".to_vec());
            assert_eq!(source, SourceTier::Api);
        }
        _ => panic!("expected a resolved domain"),
    }
}

#[test]
fn non_encyclopedia_abstract_url_is_used() {
    let mut cache = DomainCache::new();
    let query = start_fetch_query(&cache, b"band");
    let body = b"{\"AbstractURL\":\"https://band.example/\"}".to_vec();
    match resolve_after_api(&mut cache, &query, Some(&body)) {
        DomainStep::Resolved(ResolutionOutcome::Found { domain, .. }) => {
            assert_eq!(domain, b"band.example".to_vec());
        }
        _ => panic!("expected a resolved domain"),
    }
}

#[test]
fn second_resolution_is_served_from_cache_without_fetch() {
    let mut cache = DomainCache::new();
    let query = start_fetch_query(&cache, b"example");
    let body = b"{\"Results\":[{\"FirstURL\":\"https://example.org/path\"}]}".to_vec();
    match resolve_after_api(&mut cache, &query, Some(&body)) {
        DomainStep::Resolved(ResolutionOutcome::Found { .. }) => {}
        _ => panic!("expected a resolved domain"),
    }
    // The second start step for the identical query is already resolved:
    // no fetch step comes back, so no outbound call would be made.
    let req = SearchQuery { q: b"example".to_vec() };
    match resolve_start(&cache, &req) {
        DomainStep::Resolved(ResolutionOutcome::Found { domain, source }) => {
            assert_eq!(domain, b"example.org".to_vec());
            assert_eq!(source, SourceTier::Cache);
        }
        _ => panic!("expected a cache hit"),
    }
}

#[test]
fn malformed_api_reply_falls_through_to_html() {
    let mut cache = DomainCache::new();
    let query = start_fetch_query(&cache, b"example");
    let body = b"not json at all".to_vec();
    match resolve_after_api(&mut cache, &query, Some(&body)) {
        DomainStep::FetchHtml(t) => assert_eq!(t, b"example".to_vec()),
        _ => panic!("expected the HTML fetch step"),
    }
}

#[test]
fn api_transport_failure_falls_through_to_html() {
    let mut cache = DomainCache::new();
    let query = start_fetch_query(&cache, b"example");
    match resolve_after_api(&mut cache, &query, None) {
        DomainStep::FetchHtml(t) => assert_eq!(t, b"example".to_vec()),
        _ => panic!("expected the HTML fetch step"),
    }
}

#[test]
fn html_redirect_link_is_decoded_and_resolves() {
    let mut cache = DomainCache::new();
    let query = start_fetch_query(&cache, b"example");
    let html = b"<html><body>\
        <a class=\"result__a\" href=\"https://duckduckgo.com/about\">skip provider</a>\
        <a class=\"result__a\" href=\"/l/?uddg=https%3A%2F%2Fexample.net%2Fhome&rut=abc\">hit</a>\
        </body></html>"
        .to_vec();
    match resolve_after_html(&mut cache, &query, Some(&html)) {
        ResolutionOutcome::Found { domain, source } => {
            assert_eq!(domain, b"example.net".to_vec());
            assert_eq!(source, SourceTier::Html);
        }
        _ => panic!("expected a resolved domain"),
    }
    // and the HTML tier populates the cache as well
    let req = SearchQuery { q: b"example".to_vec() };
    match resolve_start(&cache, &req) {
        DomainStep::Resolved(ResolutionOutcome::Found { domain, source }) => {
            assert_eq!(domain, b"example.net".to_vec());
            assert_eq!(source, SourceTier::Cache);
        }
        _ => panic!("expected a cache hit"),
    }
}

#[test]
fn html_direct_link_resolves() {
    let mut cache = DomainCache::new();
    let query = start_fetch_query(&cache, b"site");
    let html =
        b"<div class=\"links_main\"><a href=\"https://direct.example.com/page\">x</a></div>"
            .to_vec();
    match resolve_after_html(&mut cache, &query, Some(&html)) {
        ResolutionOutcome::Found { domain, .. } => {
            assert_eq!(domain, b"direct.example.com".to_vec());
        }
        _ => panic!("expected a resolved domain"),
    }
}

#[test]
fn html_non_http_scheme_is_skipped() {
    let mut cache = DomainCache::new();
    let query = start_fetch_query(&cache, b"site");
    let html = b"<a class=\"result__a\" href=\"ftp://files.example.com/\">x</a>".to_vec();
    assert!(matches!(
        resolve_after_html(&mut cache, &query, Some(&html)),
        ResolutionOutcome::NotFound
    ));
}

#[test]
fn exhausted_cascade_is_not_found_and_caches_nothing() {
    let mut cache = DomainCache::new();
    let query = start_fetch_query(&cache, b"nothing");
    assert!(matches!(
        resolve_after_html(&mut cache, &query, None),
        ResolutionOutcome::NotFound
    ));
    // failure writes nothing: the next call starts the cascade again
    let req = SearchQuery { q: b"nothing".to_vec() };
    assert!(matches!(resolve_start(&cache, &req), DomainStep::FetchApi(_)));
}

#[test]
fn search_result_shell_carries_the_domain() {
    let found = ResolutionOutcome::Found {
        domain: b"example.org".to_vec(),
        source: SourceTier::Api,
    };
    let shell = search_result_of(&found).expect("a result for a found domain");
    assert_eq!(shell.domain, b"example.org".to_vec());
    assert!(search_result_of(&ResolutionOutcome::NotFound).is_none());
}

use wallet_enrich::cache::IconCache;
use wallet_enrich::icon::{
    icon_after_fetch, icon_cache_directive, icon_file_name, icon_request, normalize_domain,
    IconError, IconQuery,
};

#[test]
fn domain_is_normalized_to_the_cache_key() {
    // lower-cased, stripped of everything outside [a-z0-9.-], before any lookup
    let q = IconQuery { domain: b"Exa!mple.COM ".to_vec(), sz: None };
    let key = icon_request(&q).expect("a usable key");
    assert_eq!(key.domain, b"example.com".to_vec());
}

#[test]
fn missing_size_defaults_to_64() {
    let q = IconQuery { domain: b"example.com".to_vec(), sz: None };
    let key = icon_request(&q).expect("a usable key");
    assert_eq!(key.size, 64);
    let q2 = IconQuery { domain: b"example.com".to_vec(), sz: Some(128) };
    assert_eq!(icon_request(&q2).expect("a usable key").size, 128);
}

#[test]
fn unusable_domain_is_invalid_input() {
    let q = IconQuery { domain: b"!!! ???".to_vec(), sz: Some(64) };
    assert_eq!(icon_request(&q).unwrap_err(), IconError::InvalidInput);
}

#[test]
fn file_name_is_domain_size_png() {
    let q = IconQuery { domain: b"Example.com".to_vec(), sz: Some(64) };
    let key = icon_request(&q).expect("a usable key");
    assert_eq!(icon_file_name(&key), b"example.com_64.png".to_vec());
}

#[test]
fn normalization_examples() {
    assert_eq!(normalize_domain(b"WWW.Example-Site.ORG"), b"www.example-site.org".to_vec());
    assert_eq!(normalize_domain(b"a_b/c"), b"abc".to_vec());
    assert_eq!(normalize_domain(b" \t"), b"".to_vec());
}

#[test]
fn second_fetch_is_served_from_cache_byte_identical() {
    let mut cache = IconCache::new();
    let q = IconQuery { domain: b"Example.COM".to_vec(), sz: Some(32) };
    let key = icon_request(&q).expect("a usable key");
    assert!(cache.lookup(&key.domain, key.size).is_none());
    let bytes = vec![137u8, 80, 78, 71, 13, 10, 26, 10, 1, 2, 3];
    let served = icon_after_fetch(&mut cache, &key, Some(bytes.clone())).expect("the fetch wins");
    assert_eq!(served, bytes);
    // the second request for the same (domain, size) hits the cache: the
    // caller sees the stored bytes and never reaches the fetch tier
    let key2 = icon_request(&q).expect("a usable key");
    let cached = cache.lookup(&key2.domain, key2.size).expect("a cache hit");
    assert_eq!(cached, bytes);
}

#[test]
fn fetch_failure_is_upstream_unavailable() {
    let mut cache = IconCache::new();
    let q = IconQuery { domain: b"example.com".to_vec(), sz: None };
    let key = icon_request(&q).expect("a usable key");
    assert_eq!(
        icon_after_fetch(&mut cache, &key, None).unwrap_err(),
        IconError::UpstreamUnavailable
    );
    // a failed fetch stores nothing
    assert!(cache.lookup(&key.domain, key.size).is_none());
}

#[test]
fn sizes_are_cached_separately() {
    let mut cache = IconCache::new();
    let small = icon_request(&IconQuery { domain: b"example.com".to_vec(), sz: Some(16) })
        .expect("a usable key");
    let large = icon_request(&IconQuery { domain: b"example.com".to_vec(), sz: Some(64) })
        .expect("a usable key");
    icon_after_fetch(&mut cache, &small, Some(vec![1u8])).expect("stored");
    assert!(cache.lookup(&large.domain, large.size).is_none());
    assert_eq!(cache.lookup(&small.domain, small.size).expect("hit"), vec![1u8]);
}

#[test]
fn cache_directive_is_long_lived() {
    assert_eq!(icon_cache_directive(), b"public, max-age=604800".to_vec());
}

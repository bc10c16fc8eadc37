//! Tests of the response cache and the gateway: migration idempotence,
//! append-only rows, cache-idempotent fetching (a hit issues no network call
//! and returns byte-identical content), and the client's minimum interval.

use crawlcore::cache::Cache;
use crawlcore::client::RateLimitedClient;
use crawlcore::error::CrawlError;
use crawlcore::gateway::Gateway;

#[test]
fn cache_migrations_are_rerun_safe() {
    // Opening the same store twice applies the schema once; the second open
    // finds the version marker advanced and does nothing.
    let path = "/tmp/crawlcore-test-migrations.sqlite";
    let first = Cache::new(path);
    assert!(first.is_ok());
    let second = Cache::new(path);
    assert!(second.is_ok());
}

#[test]
fn cache_rows_are_append_only() {
    let mut cache = Cache::new(":memory:").unwrap();
    assert_eq!(cache.lookup("http://e/x", "get", None).unwrap(), None);
    cache.store("http://e/x", "get", None, "2020-01-01T00:00:00+00:00", "hello").unwrap();
    assert_eq!(cache.lookup("http://e/x", "get", None).unwrap().as_deref(), Some("hello"));
    // A second store under a keyed body hits the unique index.
    cache.store("http://e/y", "post", Some("{}"), "t", "first").unwrap();
    let again = cache.store("http://e/y", "post", Some("{}"), "t", "second");
    assert!(matches!(again, Err(CrawlError::Cache(_))));
    assert_eq!(cache.lookup("http://e/y", "post", Some("{}")).unwrap().as_deref(), Some("first"));
    // A key without a body is outside the index's reach: a repeat insert
    // lands a newer row, and the lookup follows it.
    cache.store("http://e/x", "get", None, "2020-01-02T00:00:00+00:00", "other").unwrap();
    assert_eq!(cache.lookup("http://e/x", "get", None).unwrap().as_deref(), Some("other"));
}

#[test]
fn cache_distinguishes_method_and_body() {
    let mut cache = Cache::new(":memory:").unwrap();
    cache.store("http://e/x", "get", None, "t", "via get").unwrap();
    cache.store("http://e/x", "post", Some("{\"a\":1}"), "t", "via post").unwrap();
    assert_eq!(cache.lookup("http://e/x", "get", None).unwrap().as_deref(), Some("via get"));
    assert_eq!(
        cache.lookup("http://e/x", "post", Some("{\"a\":1}")).unwrap().as_deref(),
        Some("via post")
    );
    assert_eq!(cache.lookup("http://e/x", "post", Some("{\"a\":2}")).unwrap(), None);
}

#[test]
fn gateway_hit_is_idempotent_and_stays_off_the_network() {
    let mut gw = Gateway::new(":memory:", 1000).unwrap();
    gw.cache.store("http://e/x", "get", None, "t", "cached body").unwrap();

    let first = gw.get("http://e/x").unwrap();
    assert_eq!(first, "cached body");
    assert_eq!((gw.stats.requests, gw.stats.hits, gw.stats.misses), (1, 1, 0));

    // The same fetch again returns byte-identical content, counts another
    // hit and no miss — and never reaches the rate-limited client, which
    // would have slept a full second before touching the network.
    let second = gw.get("http://e/x").unwrap();
    assert_eq!(second, first);
    assert_eq!((gw.stats.requests, gw.stats.hits, gw.stats.misses), (2, 2, 0));
}

#[test]
fn gateway_post_hits_are_keyed_by_body() {
    let mut gw = Gateway::new(":memory:", 1000).unwrap();
    gw.cache.store("http://e/api", "post", Some("{\"page\":1}"), "t", "page one").unwrap();
    let got = gw.post("http://e/api", "{\"page\":1}").unwrap();
    assert_eq!(got, "page one");
    assert_eq!((gw.stats.requests, gw.stats.hits, gw.stats.misses), (1, 1, 0));
}

#[test]
fn gateway_miss_counts_and_propagates_network_failure() {
    // Nothing cached and nothing listening on this port: the miss falls
    // through to the network and the transport failure comes back.
    let mut gw = Gateway::new(":memory:", 0).unwrap();
    let r = gw.get("http://127.0.0.1:9/nothing");
    assert!(matches!(r, Err(CrawlError::Network(_))));
    assert_eq!((gw.stats.requests, gw.stats.hits, gw.stats.misses), (1, 0, 1));
    // The failure was not recorded: the key is still absent.
    assert_eq!(gw.cache.lookup("http://127.0.0.1:9/nothing", "get", None).unwrap(), None);
}

#[test]
fn client_keeps_the_minimum_interval_between_calls() {
    // Two back-to-back calls against a closed port: each fails fast, but the
    // limiter still has to spread them at least the interval apart, counted
    // from the client's construction.
    let started = std::time::Instant::now();
    let mut client = RateLimitedClient::new(300);
    let _ = client.get("http://127.0.0.1:9/a");
    let _ = client.get("http://127.0.0.1:9/b");
    assert!(started.elapsed() >= std::time::Duration::from_millis(600));
}

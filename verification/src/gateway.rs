//! The origin gateway: a single-owner component that serializes every
//! outbound call, serving each fetch from the response cache or falling
//! through to the rate-limited client and recording the result. Its contract
//! carries the cache-idempotence law: a fetch whose key the cache holds
//! returns the stored text unchanged, issues no network call, and counts a
//! hit rather than a miss.

use vstd::prelude::*;

use crate::cache::{body_view, Cache, CacheKey};
use crate::client::RateLimitedClient;
use crate::error::CrawlError;

verus! {

/// The gateway's lock-free counters: calls received, cache hits, misses.
#[derive(Copy, Clone, Debug)]
pub struct WebStats {
    pub requests: u64,
    pub hits: u64,
    pub misses: u64,
}

impl WebStats {
    /// All counters at zero.
    pub fn zero() -> (r: WebStats)
        ensures
            r.requests == 0 && r.hits == 0 && r.misses == 0,
    {
        WebStats { requests: 0, hits: 0, misses: 0 }
    }
}

/// The single owner of the response cache and the rate-limited client.
pub struct Gateway {
    pub cache: Cache,
    pub client: RateLimitedClient,
    pub stats: WebStats,
}

/// What one fetch does to the gateway, besides returning `body` on success:
/// the request counter advances; a key the cache already held comes back
/// unchanged without a network call, counted as a hit; any other key is
/// either found on disk (a hit, no network call) or fetched and stored (a
/// miss, one network call); an error leaves the cache model unchanged.
pub open spec fn fetch_post(
    pre: Gateway,
    post: Gateway,
    key: CacheKey,
    r: Result<String, CrawlError>,
) -> bool {
    &&& post.stats.requests == pre.stats.requests + 1
    &&& post.client.interval() == pre.client.interval()
    &&& match r {
        Ok(body) => {
            &&& post.cache.model() == pre.cache.model().insert(key, body@)
            &&& pre.cache.model().contains_key(key) ==> {
                &&& body@ == pre.cache.model()[key]
                &&& post.client.calls() == pre.client.calls()
                &&& post.stats.hits == pre.stats.hits + 1
                &&& post.stats.misses == pre.stats.misses
            }
            &&& !pre.cache.model().contains_key(key) ==> ((post.client.calls() == pre.client.calls()
                && post.stats.hits == pre.stats.hits + 1 && post.stats.misses == pre.stats.misses)
                || (post.client.calls() == pre.client.calls() + 1 && post.stats.misses
                == pre.stats.misses + 1 && post.stats.hits == pre.stats.hits))
        },
        Err(_) => post.cache.model() == pre.cache.model(),
    }
}

impl Gateway {
    /// The rows the cache holds, as far as this process has observed them.
    pub open spec fn model(&self) -> Map<CacheKey, Seq<char>> {
        self.cache.model()
    }

    /// How many true network calls have been issued.
    pub open spec fn net_calls(&self) -> nat {
        self.client.calls()
    }

    /// Opens the cache at the given path and readies the client with the
    /// given minimum interval. A cache failure is fatal to construction.
    pub fn new(db_path: &str, min_interval_ms: u64) -> (r: Result<Gateway, CrawlError>)
        ensures
            match r {
                Ok(g) => {
                    &&& g.model() == Map::<CacheKey, Seq<char>>::empty()
                    &&& g.net_calls() == 0
                    &&& g.stats.requests == 0 && g.stats.hits == 0 && g.stats.misses == 0
                },
                Err(e) => e is Cache,
            },
    {
        let cache = Cache::new(db_path)?;
        Ok(Gateway { cache, client: RateLimitedClient::new(min_interval_ms), stats: WebStats::zero() })
    }

    /// Fetches a URL: served from the cache on a hit, else fetched over the
    /// network and stored.
    pub fn get(&mut self, url: &str) -> (r: Result<String, CrawlError>)
        requires
            old(self).stats.requests < u64::MAX,
            old(self).stats.hits < u64::MAX,
            old(self).stats.misses < u64::MAX,
        ensures
            fetch_post(*old(self), *final(self), (url@, "get"@, None), r),
    {
        self.stats.requests = self.stats.requests + 1;
        match self.cache.lookup(url, "get", None)? {
            Some(body) => {
                self.stats.hits = self.stats.hits + 1;
                proof {
                    assert(old(self).cache.model().insert((url@, "get"@, None), body@)
                        =~= old(self).cache.model().insert(
                        (url@, "get"@, body_view(None)),
                        body@,
                    ));
                }
                Ok(body)
            },
            None => {
                self.stats.misses = self.stats.misses + 1;
                let body = self.client.get(url)?;
                let stamp = crate::dates::now_rfc3339();
                self.cache.store(url, "get", None, stamp.as_str(), body.as_str())?;
                Ok(body)
            },
        }
    }

    /// Posts a JSON body: served from the cache on a hit, else posted over
    /// the network and stored under (url, method, body).
    pub fn post(&mut self, url: &str, body: &str) -> (r: Result<String, CrawlError>)
        requires
            old(self).stats.requests < u64::MAX,
            old(self).stats.hits < u64::MAX,
            old(self).stats.misses < u64::MAX,
        ensures
            fetch_post(*old(self), *final(self), (url@, "post"@, Some(body@)), r),
    {
        self.stats.requests = self.stats.requests + 1;
        match self.cache.lookup(url, "post", Some(body))? {
            Some(response) => {
                self.stats.hits = self.stats.hits + 1;
                Ok(response)
            },
            None => {
                self.stats.misses = self.stats.misses + 1;
                let response = self.client.post(url, body)?;
                let stamp = crate::dates::now_rfc3339();
                self.cache.store(url, "post", Some(body), stamp.as_str(), response.as_str())?;
                Ok(response)
            },
        }
    }
}

/// Cache-idempotence law: when one fetch of a key succeeds, a second fetch
/// of the same key through the gateway returns byte-identical content,
/// issues no network call, and counts a cache hit rather than a miss.
pub proof fn lemma_cache_idempotent(
    s0: Gateway,
    s1: Gateway,
    s2: Gateway,
    key: CacheKey,
    first: String,
    second: String,
)
    requires
        fetch_post(s0, s1, key, Ok(first)),
        fetch_post(s1, s2, key, Ok(second)),
    ensures
        second@ == first@,
        s2.client.calls() == s1.client.calls(),
        s2.stats.hits == s1.stats.hits + 1,
        s2.stats.misses == s1.stats.misses,
{
    assert(s1.cache.model().contains_key(key));
    assert(s1.cache.model()[key] == first@);
}

/// One job a worker hands the gateway's thread: what to fetch, and a
/// single-use channel to answer on.
pub enum WebJob {
    Get { url: String, reply: crossbeam::channel::Sender<Result<String, CrawlError>> },
    Post {
        url: String,
        body: String,
        reply: crossbeam::channel::Sender<Result<String, CrawlError>>,
    },
}

/// Serves one job: performs the fetch and answers on the job's reply
/// channel. A reply that cannot be delivered is dropped, as the asker is
/// gone.
pub fn serve_web_job(gw: &mut Gateway, job: WebJob)
    requires
        old(gw).stats.requests < u64::MAX,
        old(gw).stats.hits < u64::MAX,
        old(gw).stats.misses < u64::MAX,
    ensures
        final(gw).stats.requests == old(gw).stats.requests + 1,
        final(gw).client.interval() == old(gw).client.interval(),
{
    match job {
        WebJob::Get { url, reply } => {
            let r = gw.get(url.as_str());
            let _ = crate::channel::ch_send(&reply, r);
        },
        WebJob::Post { url, body, reply } => {
            let r = gw.post(url.as_str(), body.as_str());
            let _ = crate::channel::ch_send(&reply, r);
        },
    }
}

/// A worker's handle to the gateway thread: each call becomes one job with a
/// single-use reply channel, awaited synchronously.
pub struct OriginPort {
    jobs: crossbeam::channel::Sender<WebJob>,
}

impl OriginPort {
    /// Wraps a handle to the gateway's job queue.
    pub fn new(jobs: crossbeam::channel::Sender<WebJob>) -> OriginPort {
        OriginPort { jobs }
    }
}

impl crate::scrape::Origin for OriginPort {
    /// Fetches through the gateway thread; a closed job or reply channel
    /// reads as the pipeline shutting down.
    fn get(&mut self, url: &str) -> Result<String, CrawlError> {
        let (tx, rx) = crate::channel::ch_bounded::<Result<String, CrawlError>>(1);
        match crate::channel::ch_send(&self.jobs, WebJob::Get { url: url.to_owned(), reply: tx }) {
            Ok(()) => (),
            Err(_) => {
                return Err(CrawlError::Closed);
            },
        }
        match crate::channel::ch_recv(&rx) {
            Some(r) => r,
            None => Err(CrawlError::Closed),
        }
    }

    /// Posts through the gateway thread; a closed job or reply channel reads
    /// as the pipeline shutting down.
    fn post(&mut self, url: &str, body: &str) -> Result<String, CrawlError> {
        let (tx, rx) = crate::channel::ch_bounded::<Result<String, CrawlError>>(1);
        let job = WebJob::Post { url: url.to_owned(), body: body.to_owned(), reply: tx };
        match crate::channel::ch_send(&self.jobs, job) {
            Ok(()) => (),
            Err(_) => {
                return Err(CrawlError::Closed);
            },
        }
        match crate::channel::ch_recv(&rx) {
            Some(r) => r,
            None => Err(CrawlError::Closed),
        }
    }
}

} // verus!

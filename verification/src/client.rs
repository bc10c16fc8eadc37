//! The rate-limited HTTP client: before every true network call it measures
//! the time since the last one and sleeps for whatever remains of the
//! configured minimum interval, so that two consecutive calls are separated
//! by at least that interval. The delay decision is verified; the clock, the
//! sleep and the transport are the trusted boundary.

use vstd::prelude::*;

use crate::error::CrawlError;

verus! {

#[verifier::external_type_specification]
#[verifier::external_body]
pub struct ExHttpClient(reqwest::blocking::Client);

#[verifier::external_type_specification]
#[verifier::external_body]
pub struct ExInstant(std::time::Instant);

/// Relies on `reqwest::blocking::Client::new`.
#[verifier::external_body]
fn new_http_client() -> reqwest::blocking::Client {
    reqwest::blocking::Client::new()
}

/// Relies on `std::time::Instant::now`: a monotonic clock reading.
#[verifier::external_body]
fn instant_now() -> std::time::Instant {
    std::time::Instant::now()
}

/// Relies on `std::time::Instant::elapsed`: the milliseconds since the
/// reading was taken; nothing is promised of a clock.
#[verifier::external_body]
fn elapsed_ms(since: &std::time::Instant) -> u64 {
    let ms = since.elapsed().as_millis();
    if ms > u64::MAX as u128 {
        u64::MAX
    } else {
        ms as u64
    }
}

/// Relies on `crossbeam::channel::after`: receiving on the timeout channel
/// returns no earlier than the given delay.
#[verifier::external_body]
fn sleep_ms(ms: u64) {
    let _ = crossbeam::channel::after(std::time::Duration::from_millis(ms)).recv();
}

/// Relies on `reqwest::blocking::Client::get`, `RequestBuilder::send` and
/// `Response::text`: fetches a body over the network; nothing is promised of
/// a network.
#[verifier::external_body]
fn http_get(client: &reqwest::blocking::Client, url: &str) -> (r: Result<String, CrawlError>)
    ensures
        r is Err ==> r->Err_0 is Network,
{
    let run = || -> Result<String, reqwest::Error> { client.get(url).send()?.text() };
    run().map_err(|e| CrawlError::Network(format!("{e}")))
}

/// Relies on `reqwest::blocking::Client::post`, `RequestBuilder::header`,
/// `RequestBuilder::body`, `RequestBuilder::send` and `Response::text`:
/// posts a JSON body over the network; nothing is promised of a network.
#[verifier::external_body]
fn http_post_json(client: &reqwest::blocking::Client, url: &str, body: &str) -> (r: Result<
    String,
    CrawlError,
>)
    ensures
        r is Err ==> r->Err_0 is Network,
{
    let run = || -> Result<String, reqwest::Error> {
        client.post(url).header("content-type", "application/json").body(
            body.to_owned(),
        ).send()?.text()
    };
    run().map_err(|e| CrawlError::Network(format!("{e}")))
}

/// What remains of the minimum interval after `elapsed` milliseconds.
pub open spec fn required_delay_spec(elapsed: u64, interval: u64) -> u64 {
    if elapsed < interval {
        (interval - elapsed) as u64
    } else {
        0
    }
}

/// Computes what remains of the minimum interval: waiting it out puts the
/// total gap at or past the interval.
pub fn required_delay(elapsed: u64, interval: u64) -> (r: u64)
    ensures
        r == required_delay_spec(elapsed, interval),
        elapsed + r >= interval,
{
    if elapsed < interval {
        interval - elapsed
    } else {
        0
    }
}

/// Rate-limit law: however long ago the previous network call was, the
/// measured gap plus the enforced delay covers the whole minimum interval,
/// so two consecutive calls are at least the interval apart.
pub proof fn lemma_rate_limit_gap(elapsed: u64, interval: u64)
    ensures
        elapsed + required_delay_spec(elapsed, interval) >= interval,
{
}

/// The HTTP client with a global minimum inter-request delay, owned by a
/// single thread so its last-call state needs no lock.
pub struct RateLimitedClient {
    http: reqwest::blocking::Client,
    last_request: std::time::Instant,
    min_interval_ms: u64,
    calls: Ghost<nat>,
}

impl RateLimitedClient {
    /// How many true network calls this client has issued.
    pub closed spec fn calls(&self) -> nat {
        self.calls@
    }

    /// The configured minimum interval between network calls.
    pub closed spec fn interval(&self) -> u64 {
        self.min_interval_ms
    }

    /// Makes a client that keeps at least `min_interval_ms` between calls,
    /// counting from its construction.
    pub fn new(min_interval_ms: u64) -> (r: RateLimitedClient)
        ensures
            r.calls() == 0,
            r.interval() == min_interval_ms,
    {
        RateLimitedClient {
            http: new_http_client(),
            last_request: instant_now(),
            min_interval_ms,
            calls: Ghost(0),
        }
    }

    fn check_delay(&mut self)
        ensures
            final(self).calls() == old(self).calls(),
            final(self).interval() == old(self).interval(),
    {
        let elapsed = elapsed_ms(&self.last_request);
        let delay = required_delay(elapsed, self.min_interval_ms);
        if delay > 0 {
            sleep_ms(delay);
        }
        self.last_request = instant_now();
    }

    /// Issues one rate-limited GET against the real network.
    pub fn get(&mut self, url: &str) -> (r: Result<String, CrawlError>)
        ensures
            final(self).calls() == old(self).calls() + 1,
            final(self).interval() == old(self).interval(),
            r is Err ==> r->Err_0 is Network,
    {
        self.check_delay();
        proof {
            self.calls = Ghost(self.calls@ + 1);
        }
        http_get(&self.http, url)
    }

    /// Issues one rate-limited POST of a JSON body against the real network.
    pub fn post(&mut self, url: &str, body: &str) -> (r: Result<String, CrawlError>)
        ensures
            final(self).calls() == old(self).calls() + 1,
            final(self).interval() == old(self).interval(),
            r is Err ==> r->Err_0 is Network,
    {
        self.check_delay();
        proof {
            self.calls = Ghost(self.calls@ + 1);
        }
        http_post_json(&self.http, url, body)
    }
}

} // verus!

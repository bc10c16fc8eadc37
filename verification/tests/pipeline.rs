//! Tests of the pipeline pieces together: the router's dedup counting, one
//! request's full trip through a worker, the bounded output channel's
//! backpressure, and worker shutdown on closed channels.

use crawlcore::channel::{ch_bounded, ch_receiver_clone, ch_recv, ch_sender_clone, ch_unbounded};
use crawlcore::data::{Artist, ArtistDetails, ArtistId, Url};
use crawlcore::error::CrawlError;
use crawlcore::request::{Request, Response};
use crawlcore::router::{Router, WorkStats};
use crawlcore::scrape::Origin;
use crawlcore::worker::{worker_step, WorkerFlow};

/// An origin that answers every GET with one fixed artist page.
struct ScriptOrigin {
    page: String,
}

impl Origin for ScriptOrigin {
    fn get(&mut self, _url: &str) -> Result<String, CrawlError> {
        Ok(self.page.clone())
    }

    fn post(&mut self, _url: &str, _body: &str) -> Result<String, CrawlError> {
        Err(CrawlError::Network("no pagination in this script".to_owned()))
    }
}

fn small_artist_page() -> String {
    "<html><body>\
     <div data-band='{\"id\":7,\"name\":\"The Band\"}'></div>\
     <ol id=\"music-grid\">\
     <li class=\"music-grid-item\" data-item-id=\"album-101\">\
     <a href=\"/album/a1\"><p class=\"title\">A1</p></a></li>\
     </ol></body></html>".to_owned()
}

fn small_release_page() -> String {
    "<html><head>\
     <meta name=bc-page-properties content='{\"item_type\":\"a\",\"item_id\":42}'>\
     <script type=\"application/ld+json\">{\"name\":\"Cool Album\",\
     \"byArtist\":{\"name\":\"The Band\"},\"duration\":\"PT2M\"}</script>\
     </head><body>\
     <div data-band='{\"id\":7,\"name\":\"The Band\"}'></div>\
     <div data-tralbum='{\"current\":{\
     \"publish_date\":\"Sat, 01 Feb 2020 03:00:00 +0000\"}}'></div>\
     <div id=\"collectors-data\" data-blob='{\"more_thumbs_available\":false,\
     \"reviews\":[],\"thumbs\":[]}'></div>\
     </body></html>".to_owned()
}

fn sample_response(i: u64) -> Response {
    Response::Artist(
        Artist { id: ArtistId(i), url: Url(format!("https://x.bandcamp.com/{i}")) },
        ArtistDetails { name: format!("artist {i}") },
    )
}

#[test]
fn router_counts_distinct_submissions_only() {
    let (qtx, qrx) = ch_unbounded::<Request>();
    let (_otx, orx) = ch_bounded::<Response>(8);
    let mut router = Router::new(qtx, orx);
    let mut stats = WorkStats::zero();

    let a = || Request::Artist { url: "https://a.bandcamp.com/music".to_owned() };
    let b = || Request::Release { url: "https://a.bandcamp.com/album/b".to_owned() };
    let c = || Request::User { url: "https://bandcamp.com/c".to_owned() };

    // Six submissions, three distinct, in a mixed order.
    assert_eq!(router.submit(&mut stats, a()).unwrap(), true);
    assert_eq!(router.submit(&mut stats, b()).unwrap(), true);
    assert_eq!(router.submit(&mut stats, a()).unwrap(), false);
    assert_eq!(router.submit(&mut stats, c()).unwrap(), true);
    assert_eq!(router.submit(&mut stats, b()).unwrap(), false);
    assert_eq!(router.submit(&mut stats, a()).unwrap(), false);

    assert_eq!(stats.items_queued, 3);
    assert_eq!(stats.items_duplicate, 3);

    // Exactly the three distinct requests reached the pool, in first-seen order.
    let mut reached = Vec::new();
    while let Ok(req) = qrx.try_recv() {
        reached.push(req);
    }
    assert_eq!(reached.len(), 3);
    assert!(matches!(&reached[0], Request::Artist { url } if url == "https://a.bandcamp.com/music"));
    assert!(matches!(&reached[1], Request::Release { url } if url == "https://a.bandcamp.com/album/b"));
    assert!(matches!(&reached[2], Request::User { url } if url == "https://bandcamp.com/c"));
}

#[test]
fn same_kind_different_url_is_not_a_duplicate() {
    let (qtx, _qrx) = ch_unbounded::<Request>();
    let (_otx, orx) = ch_bounded::<Response>(8);
    let mut router = Router::new(qtx, orx);
    let mut stats = WorkStats::zero();
    let r1 = Request::Release { url: "https://a.bandcamp.com/album/x".to_owned() };
    let r2 = Request::Release { url: "https://a.bandcamp.com/album/y".to_owned() };
    let u1 = Request::User { url: "https://a.bandcamp.com/album/x".to_owned() };
    assert_eq!(router.submit(&mut stats, r1).unwrap(), true);
    assert_eq!(router.submit(&mut stats, r2).unwrap(), true);
    // Same URL under another kind is a different request.
    assert_eq!(router.submit(&mut stats, u1).unwrap(), true);
    assert_eq!(stats.items_duplicate, 0);
}

#[test]
fn one_release_submitted_twice_completes_once() {
    // Submitting the same release twice yields exactly one queued item, one
    // completed item, and one duplicate-count increment.
    let (qtx, qrx) = ch_unbounded::<Request>();
    let (otx, orx) = ch_bounded::<Response>(8);
    let mut router = Router::new(qtx, orx);
    let mut stats = WorkStats::zero();

    let req = || Request::Release { url: "https://x.bandcamp.com/album/a".to_owned() };
    assert_eq!(router.submit(&mut stats, req()).unwrap(), true);
    assert_eq!(router.submit(&mut stats, req()).unwrap(), false);
    assert_eq!(stats.items_queued, 1);
    assert_eq!(stats.items_duplicate, 1);

    let mut origin = ScriptOrigin { page: small_release_page() };
    let picked = ch_recv(&qrx).unwrap();
    let flow = worker_step(&mut origin, &mut stats, &picked, &otx);
    assert!(matches!(flow, WorkerFlow::Continue(None)));
    assert_eq!(stats.items_queued, 0);
    assert_eq!(stats.items_processing, 0);
    assert_eq!(stats.items_completed, 1);
    assert_eq!(stats.items_duplicate, 1);

    // Nothing else was queued: the queue is drained.
    assert!(qrx.try_recv().is_err());
    // The one request produced its responses: the owning artist, the two
    // embedded fan batches, and the primary release last.
    let mut got = Vec::new();
    while let Ok(Some(r)) = router.try_receive() {
        got.push(r);
    }
    assert_eq!(got.len(), 4);
    assert!(matches!(got[0], Response::ReleaseArtist(..)));
    assert!(matches!(got[1], Response::Fans(..)));
    assert!(matches!(got[2], Response::Fans(..)));
    assert!(matches!(got[3], Response::Release(..)));
}

#[test]
fn failed_requests_produce_no_response_but_complete() {
    let (qtx, qrx) = ch_unbounded::<Request>();
    let (otx, orx) = ch_bounded::<Response>(8);
    let mut router = Router::new(qtx, orx);
    let mut stats = WorkStats::zero();
    // An unparsable URL fails extraction before any fetch.
    let req = Request::Artist { url: "not a url".to_owned() };
    router.submit(&mut stats, req).unwrap();
    let mut origin = ScriptOrigin { page: small_artist_page() };
    let picked = ch_recv(&qrx).unwrap();
    let flow = worker_step(&mut origin, &mut stats, &picked, &otx);
    assert!(matches!(flow, WorkerFlow::Continue(Some(CrawlError::Extract(_)))));
    assert_eq!(stats.items_completed, 1);
    assert!(matches!(router.try_receive(), Ok(None)));
}

#[test]
fn output_channel_stalls_at_capacity_and_resumes() {
    // The bounded output channel accepts its capacity and no more; one
    // drained slot lets one more in.
    let (tx, rx) = ch_bounded::<Response>(8);
    for i in 0..8 {
        assert!(tx.try_send(sample_response(i)).is_ok());
    }
    assert!(tx.try_send(sample_response(8)).is_err());
    assert!(rx.recv().is_ok());
    assert!(tx.try_send(sample_response(9)).is_ok());
}

#[test]
fn producer_blocks_until_consumer_drains() {
    // A producer pushing ten responses through the capacity-8 channel stalls
    // once it is full, and finishes as soon as draining resumes.
    let (tx, rx) = ch_bounded::<Response>(8);
    let (done_tx, done_rx) = ch_unbounded::<()>();
    crossbeam::scope(|s| {
        s.spawn(move |_| {
            for i in 0..10 {
                tx.send(sample_response(i)).unwrap();
            }
            done_tx.send(()).unwrap();
        });
        while rx.len() < 8 {}
        // The channel is full and the producer is stuck mid-way.
        assert!(done_rx.try_recv().is_err());
        for _ in 0..10 {
            rx.recv().unwrap();
        }
        // Draining released it.
        assert!(done_rx.recv().is_ok());
    }).unwrap();
}

#[test]
fn worker_exits_when_the_output_side_is_gone() {
    let (otx, orx) = ch_bounded::<Response>(8);
    drop(orx);
    let mut origin = ScriptOrigin { page: small_artist_page() };
    let mut stats = WorkStats::zero();
    let req = Request::Artist { url: "https://x.bandcamp.com/music".to_owned() };
    let flow = worker_step(&mut origin, &mut stats, &req, &otx);
    assert!(matches!(flow, WorkerFlow::Exit));
    // The exit leaves the request counted as in flight, not completed.
    assert_eq!(stats.items_processing, 1);
    assert_eq!(stats.items_completed, 0);
}

#[test]
fn try_receive_reports_shutdown_once_workers_are_gone() {
    let (qtx, _qrx) = ch_unbounded::<Request>();
    let (otx, orx) = ch_bounded::<Response>(8);
    let router = Router::new(qtx, orx);
    // With every sending side gone and nothing buffered, the non-blocking
    // receive reports the shutdown condition rather than emptiness.
    drop(otx);
    let r = router.try_receive();
    assert!(matches!(r, Err(CrawlError::Closed)));
}

#[test]
fn origin_port_reports_shutdown_when_the_gateway_is_gone() {
    let (jobs_tx, jobs_rx) = ch_unbounded::<crawlcore::gateway::WebJob>();
    drop(jobs_rx);
    let mut port = crawlcore::gateway::OriginPort::new(jobs_tx);
    let r = Origin::get(&mut port, "https://x.bandcamp.com/music");
    assert!(matches!(r, Err(CrawlError::Closed)));
}

#[test]
fn closing_the_router_stops_every_worker() {
    let (qtx, qrx) = ch_unbounded::<Request>();
    let (otx, orx) = ch_bounded::<Response>(8);
    let qrx2 = ch_receiver_clone(&qrx);
    let otx2 = ch_sender_clone(&otx);
    let mut router = Router::new(qtx, orx);
    let mut stats = WorkStats::zero();
    router.submit(
        &mut stats,
        Request::Artist { url: "https://a.bandcamp.com/music".to_owned() },
    ).unwrap();
    router.submit(
        &mut stats,
        Request::Artist { url: "https://b.bandcamp.com/music".to_owned() },
    ).unwrap();

    crossbeam::scope(|s| {
        for rx in [qrx, qrx2] {
            let out = ch_sender_clone(&otx2);
            s.spawn(move |_| {
                let mut origin = ScriptOrigin { page: small_artist_page() };
                let mut local = WorkStats::zero();
                while let Some(req) = ch_recv(&rx) {
                    match worker_step(&mut origin, &mut local, &req, &out) {
                        WorkerFlow::Exit => break,
                        WorkerFlow::Continue(_) => (),
                    }
                }
            });
        }
        drop(otx);
        drop(otx2);
        // Both requests produce two responses each.
        let mut got = 0;
        while got < 4 {
            if let Ok(Some(_)) = router.try_receive() {
                got += 1;
            }
        }
        // Closing the router's input side lets every worker drain and stop:
        // the scope's join completes, and a worker panic would surface here.
        drop(router);
    }).unwrap();
}

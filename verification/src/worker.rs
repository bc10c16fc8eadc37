//! One worker's handling of one request: dispatch to the scrape protocol for
//! the request's kind, forward the resulting responses to the bounded output
//! channel, and keep the work counters. A response that cannot be delivered
//! because the output channel is closed is the one condition that winds the
//! worker down; every other failure is reported and the worker carries on.

use vstd::prelude::*;

use crate::data::EntityType;
use crate::error::CrawlError;
use crate::extract::{ArtistPageV, CollectionsPageV, FanPageV, ReleasePageV, ThumbsPageV};
use crate::request::{Request, Response, ResponseV};
use crate::router::WorkStats;
use crate::scrape::{
    artist_events_shape, collections_pagination_ok, expected_artist_events, expected_fan_events,
    expected_release_events, fan_events_shape, fan_initial_more, release_events_shape,
    scrape_artist, scrape_fan, scrape_release, thumbs_pagination_ok, Origin,
};
use crate::urls::parsed_url_of;

verus! {

/// What a worker does after one request: carry on (with the failure to
/// report, if any), or wind down because the pipeline is shutting down.
pub enum WorkerFlow {
    Continue(Option<CrawlError>),
    Exit,
}

/// The emission-order contract of whichever protocol handles the request's
/// kind.
pub open spec fn handled_shape(kind: EntityType, ev: Seq<ResponseV>) -> bool {
    match kind {
        EntityType::Artist => artist_events_shape(ev),
        EntityType::Release => release_events_shape(ev),
        EntityType::User => fan_events_shape(ev),
    }
}

/// The content contract of whichever protocol handles the request's kind:
/// the events are what that protocol yields for the request's normalized
/// URL, from some well-formed page and some coherently paginated follow-up.
pub open spec fn handled_events(req: (EntityType, Seq<char>), ev: Seq<ResponseV>) -> bool {
    match req.0 {
        EntityType::Artist => exists|u: Seq<char>, page: ArtistPageV|
            #![trigger expected_artist_events(u, page)]
            {
                &&& parsed_url_of(req.1) == Some(u)
                &&& expected_artist_events(u, page) == Some(ev)
            },
        EntityType::Release => exists|u: Seq<char>, page: ReleasePageV, pages: Seq<ThumbsPageV>|
            #![trigger expected_release_events(u, page, pages)]
            {
                &&& parsed_url_of(req.1) == Some(u)
                &&& expected_release_events(u, page, pages) == Some(ev)
                &&& thumbs_pagination_ok(
                    page.collectors.more_thumbs_available,
                    page.collectors.thumbs.len() > 0,
                    pages,
                )
            },
        EntityType::User => exists|page: FanPageV, pages: Seq<CollectionsPageV>|
            #![trigger expected_fan_events(page, pages)]
            {
                &&& parsed_url_of(req.1) is Some
                &&& expected_fan_events(page, pages) == Some(ev)
                &&& collections_pagination_ok(fan_initial_more(page), pages)
            },
    }
}

/// Handles one request: validates its URL and runs the scrape protocol for
/// its kind, yielding the responses in emission order.
pub fn handle_request<F: Origin>(origin: &mut F, request: &Request) -> (r: Result<
    Vec<Response>,
    CrawlError,
>)
    ensures
        r matches Ok(events) ==> {
            &&& handled_shape(request@.0, events@.map_values(|x: Response| x@))
            &&& handled_events(request@, events@.map_values(|x: Response| x@))
        },
{
    let parsed = match crate::urls::url_parse(request.url()) {
        Some(u) => u,
        None => {
            return Err(crate::error::extract_err("request URL does not parse"));
        },
    };
    match request {
        Request::Artist { .. } => scrape_artist(origin, parsed.as_str()),
        Request::Release { .. } => scrape_release(origin, parsed.as_str()),
        Request::User { .. } => scrape_fan(origin, parsed.as_str()),
    }
}

/// Processes one queued request exactly as a pool worker does: the request
/// leaves the queued count for the processing count; its responses go to the
/// output channel in emission order; a response the closed output channel
/// refuses winds the worker down at once, leaving the counters mid-flight;
/// otherwise the request is counted completed, whether it succeeded or
/// failed.
pub fn worker_step<F: Origin>(
    origin: &mut F,
    stats: &mut WorkStats,
    request: &Request,
    output: &crossbeam::channel::Sender<Response>,
) -> (flow: WorkerFlow)
    requires
        old(stats).items_processing < u64::MAX,
        old(stats).items_completed < u64::MAX,
    ensures
        final(stats).items_duplicate == old(stats).items_duplicate,
        final(stats).items_queued == if old(stats).items_queued > 0 {
            (old(stats).items_queued - 1) as u64
        } else {
            0
        },
        flow is Continue ==> {
            &&& final(stats).items_processing == old(stats).items_processing
            &&& final(stats).items_completed == old(stats).items_completed + 1
        },
        flow is Exit ==> {
            &&& final(stats).items_processing == old(stats).items_processing + 1
            &&& final(stats).items_completed == old(stats).items_completed
        },
{
    if stats.items_queued > 0 {
        stats.items_queued = stats.items_queued - 1;
    }
    stats.items_processing = stats.items_processing + 1;
    let outcome: Option<CrawlError> = match handle_request(origin, request) {
        Ok(events) => {
            let mut events = events;
            while events.len() > 0
                invariant
                    stats.items_duplicate == old(stats).items_duplicate,
                    stats.items_queued == if old(stats).items_queued > 0 {
                        (old(stats).items_queued - 1) as u64
                    } else {
                        0
                    },
                    stats.items_processing == old(stats).items_processing + 1,
                    stats.items_completed == old(stats).items_completed,
                decreases events@.len(),
            {
                let event = events.remove(0);
                match crate::channel::ch_send(output, event) {
                    Ok(()) => (),
                    Err(_) => {
                        return WorkerFlow::Exit;
                    },
                }
            }
            None
        },
        Err(e) => Some(e),
    };
    stats.items_processing = stats.items_processing - 1;
    stats.items_completed = stats.items_completed + 1;
    WorkerFlow::Continue(outcome)
}

} // verus!

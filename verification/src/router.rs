//! The request router, the pipeline's façade: it deduplicates submissions
//! against every request seen in this process's lifetime, forwards new ones
//! to the worker pool's input queue, and offers a non-blocking receive for
//! results. The dedup law is proved here: the forwarded requests are exactly
//! the distinct requests submitted, each exactly once, and the duplicate
//! count is the difference between submissions and distinct submissions.

use vstd::prelude::*;

use crate::data::EntityType;
use crate::error::CrawlError;
use crate::request::{Request, Response};

verus! {

/// The pipeline's lock-free work counters: requests waiting in the queue,
/// suppressed duplicates, requests being processed, requests completed.
#[derive(Copy, Clone, Debug)]
pub struct WorkStats {
    pub items_queued: u64,
    pub items_duplicate: u64,
    pub items_processing: u64,
    pub items_completed: u64,
}

impl WorkStats {
    /// All counters at zero.
    pub fn zero() -> (r: WorkStats)
        ensures
            r.items_queued == 0 && r.items_duplicate == 0 && r.items_processing == 0
                && r.items_completed == 0,
    {
        WorkStats { items_queued: 0, items_duplicate: 0, items_processing: 0, items_completed: 0 }
    }
}

/// The router: the process-lifetime seen-set, the worker pool's input queue,
/// and the output channel's receiving side. The ghost history records every
/// submission and every forwarded request.
pub struct Router {
    seen: Vec<Request>,
    queue: crossbeam::channel::Sender<Request>,
    results: crossbeam::channel::Receiver<Response>,
    submitted: Ghost<Seq<(EntityType, Seq<char>)>>,
    forwarded: Ghost<Seq<(EntityType, Seq<char>)>>,
}

impl Router {
    /// Every request ever submitted, in order, by kind and URL.
    pub closed spec fn submitted(&self) -> Seq<(EntityType, Seq<char>)> {
        self.submitted@
    }

    /// Every request handed to the worker pool's queue, in order.
    pub closed spec fn forwarded(&self) -> Seq<(EntityType, Seq<char>)> {
        self.forwarded@
    }

    /// The router's invariant: nothing is forwarded twice, and what was
    /// forwarded is exactly the distinct requests submitted — which is also
    /// exactly the seen-set, from which nothing is ever removed.
    pub closed spec fn wf(&self) -> bool {
        &&& self.forwarded@.no_duplicates()
        &&& self.forwarded@.to_set() == self.submitted@.to_set()
        &&& self.seen@.map_values(|r: Request| r@) == self.forwarded@
    }

    /// Whether the counters account for this router's history: the duplicate
    /// count is the submissions minus the forwarded requests.
    pub open spec fn accounted(&self, stats: WorkStats) -> bool {
        stats.items_duplicate == self.submitted().len() - self.forwarded().len()
    }

    /// Wraps the input queue and the results channel with an empty history.
    pub fn new(
        queue: crossbeam::channel::Sender<Request>,
        results: crossbeam::channel::Receiver<Response>,
    ) -> (r: Router)
        ensures
            r.wf(),
            r.submitted() == Seq::<(EntityType, Seq<char>)>::empty(),
            r.forwarded() == Seq::<(EntityType, Seq<char>)>::empty(),
    {
        let r = Router {
            seen: Vec::new(),
            queue,
            results,
            submitted: Ghost(Seq::empty()),
            forwarded: Ghost(Seq::empty()),
        };
        proof {
            assert(r.seen@.map_values(|x: Request| x@) =~= Seq::<(EntityType, Seq<char>)>::empty());
        }
        r
    }

    fn seen_contains(&self, request: &Request) -> (r: bool)
        ensures
            r == self.seen@.map_values(|x: Request| x@).to_set().contains(request@),
    {
        let ghost views = self.seen@.map_values(|x: Request| x@);
        let n = self.seen.len();
        let mut i: usize = 0;
        while i < n
            invariant
                0 <= i <= n,
                n == self.seen@.len(),
                views == self.seen@.map_values(|x: Request| x@),
                forall|j: int| 0 <= j < i ==> views[j] != request@,
            decreases n - i,
        {
            if self.seen[i] == *request {
                assert(views.contains(request@)) by {
                    assert(views[i as int] == request@);
                }
                return true;
            }
            i = i + 1;
        }
        assert(!views.contains(request@)) by {
            assert(forall|j: int| 0 <= j < views.len() ==> views[j] != request@);
        }
        false
    }

    /// Submits a request. A request never seen before joins the seen-set, is
    /// counted as queued and handed to the worker pool's queue; a repeat is
    /// counted as a duplicate and goes nowhere. Yields whether the request
    /// was new; a new request meets a closed queue only during shutdown.
    pub fn submit(&mut self, stats: &mut WorkStats, request: Request) -> (r: Result<
        bool,
        CrawlError,
    >)
        requires
            old(self).wf(),
            old(stats).items_queued < u64::MAX,
            old(stats).items_duplicate < u64::MAX,
        ensures
            final(self).wf(),
            final(self).submitted() == old(self).submitted().push(request@),
            final(stats).items_processing == old(stats).items_processing,
            final(stats).items_completed == old(stats).items_completed,
            old(self).submitted().to_set().contains(request@) ==> {
                &&& r == Ok::<bool, CrawlError>(false)
                &&& final(self).forwarded() == old(self).forwarded()
                &&& final(stats).items_duplicate == old(stats).items_duplicate + 1
                &&& final(stats).items_queued == old(stats).items_queued
            },
            !old(self).submitted().to_set().contains(request@) ==> {
                &&& final(self).forwarded() == old(self).forwarded().push(request@)
                &&& final(stats).items_duplicate == old(stats).items_duplicate
                &&& final(stats).items_queued == old(stats).items_queued + 1
                &&& (r matches Ok(b) ==> b == true)
                &&& (r matches Err(e) ==> e is Closed)
            },
            old(self).accounted(*old(stats)) ==> final(self).accounted(*final(stats)),
    {
        let ghost reqv = request@;
        let known = self.seen_contains(&request);
        proof {
            old(self).submitted@.lemma_push_to_set_commute(reqv);
            old(self).forwarded@.lemma_push_to_set_commute(reqv);
            self.submitted = Ghost(self.submitted@.push(reqv));
            assert(self.submitted@.to_set() =~= old(self).submitted@.to_set().insert(reqv));
        }
        if known {
            stats.items_duplicate = stats.items_duplicate + 1;
            proof {
                assert(old(self).submitted@.to_set().insert(reqv) =~= old(
                    self,
                ).submitted@.to_set());
            }
            Ok(false)
        } else {
            let ghost pre_seen = self.seen@;
            let forwarded_request = request.clone();
            self.seen.push(request);
            proof {
                self.forwarded = Ghost(self.forwarded@.push(reqv));
                assert(self.seen@.map_values(|x: Request| x@) =~= pre_seen.map_values(
                    |x: Request| x@,
                ).push(reqv));
                assert(self.forwarded@.to_set() =~= old(self).forwarded@.to_set().insert(reqv));
            }
            stats.items_queued = stats.items_queued + 1;
            match crate::channel::ch_send(&self.queue, forwarded_request) {
                Ok(()) => Ok(true),
                Err(_) => Err(CrawlError::Closed),
            }
        }
    }

    /// Pops one result without blocking: a waiting response, nothing while
    /// workers may still produce, or the shutdown error once the output
    /// channel is closed and drained.
    pub fn try_receive(&self) -> (r: Result<Option<Response>, CrawlError>)
        ensures
            r matches Err(e) ==> e is Closed,
    {
        match crate::channel::ch_try_recv(&self.results) {
            crate::channel::TryRecv::Got(response) => Ok(Some(response)),
            crate::channel::TryRecv::Empty => Ok(None),
            crate::channel::TryRecv::Closed => Err(CrawlError::Closed),
        }
    }
}

/// Dedup law: after any sequence of submissions, in any order and with any
/// repetitions, the requests forwarded to the worker pool are exactly the
/// distinct requests submitted, each forwarded exactly once.
pub proof fn lemma_dedup(r: &Router)
    requires
        r.wf(),
    ensures
        r.forwarded().to_set() == r.submitted().to_set(),
        r.forwarded().len() == r.submitted().to_set().len(),
{
    r.forwarded().unique_seq_to_set();
}

/// Duplicate-count law: counters that started at zero and followed the
/// router's history put the duplicate count at exactly the number of
/// submissions minus the number of distinct submissions.
pub proof fn lemma_duplicate_count(r: &Router, stats: WorkStats)
    requires
        r.wf(),
        r.accounted(stats),
    ensures
        stats.items_duplicate == r.submitted().len() - r.submitted().to_set().len(),
{
    lemma_dedup(r);
}

} // verus!

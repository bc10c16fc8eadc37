//! The per-entity scrape protocols: each takes a page URL and a transport to
//! the origin, drives the paginated follow-up calls until exhausted, and
//! yields the results as an ordered sequence of responses. The emission order
//! is part of the contract: for a release, the owning artist comes before
//! every relationship batch and the primary entity comes last; for artists
//! and fans, all relationship batches come before the primary entity.

use vstd::prelude::*;

use crate::data::{
    Artist, ArtistDetails, ArtistDetailsV, ArtistId, ArtistV, Release, ReleaseDetails,
    ReleaseDetailsV, ReleaseId, ReleaseType, ReleaseV, Url, User, UserDetails, UserDetailsV,
    UserId, UserV,
};
use crate::error::{extract_err, CrawlError};
use crate::extract::{
    extract_artist_page, extract_fan_page, extract_release_page, parse_collections, parse_thumbs,
    spec_artist_page, spec_fan_page, spec_release_page, ArtistPageV, ClientItemV, CollectionItemV,
    CollectionsPageV, FanPageV, FanRef, FanRefV, GridItemV, ReleasePageV, ReviewRef, ReviewRefV,
    ThumbsPageV,
};
use crate::request::{
    is_owning_artist, is_primary, is_relationship_batch, Response, ResponseV,
};
use crate::urls::joined_url_of;

verus! {

/// A transport to the origin server. The scrape protocols are verified for
/// every behavior of it: nothing is assumed of what it returns.
pub trait Origin {
    /// Fetches the body behind a URL.
    fn get(&mut self, url: &str) -> Result<String, CrawlError>;

    /// Posts a JSON body to a URL and fetches the response body.
    fn post(&mut self, url: &str, body: &str) -> Result<String, CrawlError>;
}

// ---------------------------------------------------------------------------
// Mapping extracted references to catalog entities.
// ---------------------------------------------------------------------------
/// The user entity a fan reference names: its profile URL is the site root
/// plus the username.
pub open spec fn user_of(fan_id: u64, username: Seq<char>) -> UserV {
    UserV { id: UserId(fan_id), url: "https://bandcamp.com/"@ + username }
}

/// The users a review list references.
pub open spec fn users_of_reviews(rs: Seq<ReviewRefV>) -> Seq<UserV> {
    rs.map_values(|r: ReviewRefV| user_of(r.fan_id, r.username))
}

/// The users a thumb list references.
pub open spec fn users_of_fans(fs: Seq<FanRefV>) -> Seq<UserV> {
    fs.map_values(|f: FanRefV| user_of(f.fan_id, f.username))
}

/// The releases a collection item list references.
pub open spec fn releases_of_items(items: Seq<CollectionItemV>) -> Seq<ReleaseV> {
    items.map_values(|x: CollectionItemV| ReleaseV { id: ReleaseId(x.item_id), url: x.item_url })
}

fn make_user(fan_id: u64, username: &str) -> (u: User)
    ensures
        u@ == user_of(fan_id, username@),
{
    let mut url = String::from_str("https://bandcamp.com/");
    url.append(username);
    User { id: UserId(fan_id), url: Url(url) }
}

fn review_users(rs: &Vec<ReviewRef>) -> (us: Vec<User>)
    ensures
        us@.map_values(|u: User| u@) == users_of_reviews(rs@.map_values(|r: ReviewRef| r@)),
{
    let mut out: Vec<User> = Vec::new();
    let n = rs.len();
    let mut i: usize = 0;
    while i < n
        invariant
            0 <= i <= n,
            n == rs@.len(),
            out@.map_values(|u: User| u@) =~= users_of_reviews(
                rs@.take(i as int).map_values(|r: ReviewRef| r@),
            ),
        decreases n - i,
    {
        let ghost pre = out@;
        let u = make_user(rs[i].fan_id, rs[i].username.as_str());
        out.push(u);
        assert(out@.map_values(|u: User| u@) =~= pre.map_values(|u: User| u@).push(
            out@.last()@,
        ));
        assert(rs@.take(i + 1).map_values(|r: ReviewRef| r@) =~= rs@.take(i as int).map_values(
            |r: ReviewRef| r@,
        ).push(rs@[i as int]@));
        i = i + 1;
    }
    assert(rs@.take(n as int) =~= rs@);
    out
}

fn fan_users(fs: &Vec<FanRef>) -> (us: Vec<User>)
    ensures
        us@.map_values(|u: User| u@) == users_of_fans(fs@.map_values(|f: FanRef| f@)),
{
    let mut out: Vec<User> = Vec::new();
    let n = fs.len();
    let mut i: usize = 0;
    while i < n
        invariant
            0 <= i <= n,
            n == fs@.len(),
            out@.map_values(|u: User| u@) =~= users_of_fans(
                fs@.take(i as int).map_values(|f: FanRef| f@),
            ),
        decreases n - i,
    {
        let ghost pre = out@;
        let u = make_user(fs[i].fan_id, fs[i].username.as_str());
        out.push(u);
        assert(out@.map_values(|u: User| u@) =~= pre.map_values(|u: User| u@).push(
            out@.last()@,
        ));
        assert(fs@.take(i + 1).map_values(|f: FanRef| f@) =~= fs@.take(i as int).map_values(
            |f: FanRef| f@,
        ).push(fs@[i as int]@));
        i = i + 1;
    }
    assert(fs@.take(n as int) =~= fs@);
    out
}

fn item_releases(items: &Vec<crate::extract::CollectionItem>) -> (rs: Vec<Release>)
    ensures
        rs@.map_values(|r: Release| r@) == releases_of_items(
            items@.map_values(|x: crate::extract::CollectionItem| x@),
        ),
{
    let mut out: Vec<Release> = Vec::new();
    let n = items.len();
    let mut i: usize = 0;
    while i < n
        invariant
            0 <= i <= n,
            n == items@.len(),
            out@.map_values(|r: Release| r@) =~= releases_of_items(
                items@.take(i as int).map_values(|x: crate::extract::CollectionItem| x@),
            ),
        decreases n - i,
    {
        let ghost pre = out@;
        let r = Release {
            id: ReleaseId(items[i].item_id),
            url: Url(items[i].item_url.clone()),
        };
        out.push(r);
        assert(out@.map_values(|r: Release| r@) =~= pre.map_values(|r: Release| r@).push(
            out@.last()@,
        ));
        assert(items@.take(i + 1).map_values(|x: crate::extract::CollectionItem| x@) =~= items@
            .take(i as int).map_values(|x: crate::extract::CollectionItem| x@).push(
            items@[i as int]@,
        ));
        i = i + 1;
    }
    assert(items@.take(n as int) =~= items@);
    out
}

// ---------------------------------------------------------------------------
// The artist scrape.
// ---------------------------------------------------------------------------
/// The releases an artist page's grid references, each resolved against the
/// page URL; a reference that does not resolve fails the scrape.
pub open spec fn releases_of_grid(url: Seq<char>, items: Seq<GridItemV>) -> Option<Seq<ReleaseV>>
    decreases items.len(),
{
    if items.len() == 0 {
        Some(Seq::<ReleaseV>::empty())
    } else {
        match (releases_of_grid(url, items.drop_last()), joined_url_of(url, items.last().href)) {
            (Some(pre), Some(joined)) => Some(
                pre.push(ReleaseV { id: ReleaseId(items.last().item_id), url: joined }),
            ),
            _ => None,
        }
    }
}

/// The releases an artist page's client-rendered list references, each
/// resolved against the page URL.
pub open spec fn releases_of_client(url: Seq<char>, items: Seq<ClientItemV>) -> Option<
    Seq<ReleaseV>,
>
    decreases items.len(),
{
    if items.len() == 0 {
        Some(Seq::<ReleaseV>::empty())
    } else {
        match (releases_of_client(url, items.drop_last()), joined_url_of(
            url,
            items.last().page_url,
        )) {
            (Some(pre), Some(joined)) => Some(
                pre.push(ReleaseV { id: ReleaseId(items.last().id), url: joined }),
            ),
            _ => None,
        }
    }
}

proof fn lemma_grid_releases_step(url: Seq<char>, items: Seq<GridItemV>, i: int)
    requires
        0 <= i < items.len(),
    ensures
        releases_of_grid(url, items.take(i + 1)) == match (releases_of_grid(url, items.take(i)),
        joined_url_of(url, items[i].href)) {
            (Some(pre), Some(joined)) => Some(
                pre.push(ReleaseV { id: ReleaseId(items[i].item_id), url: joined }),
            ),
            _ => None::<Seq<ReleaseV>>,
        },
{
    assert(items.take(i + 1).drop_last() =~= items.take(i));
    assert(items.take(i + 1).last() == items[i]);
}

proof fn lemma_grid_releases_none(url: Seq<char>, items: Seq<GridItemV>, i: int)
    requires
        0 <= i <= items.len(),
        releases_of_grid(url, items.take(i)) is None,
    ensures
        releases_of_grid(url, items) is None,
    decreases items.len() - i,
{
    if i == items.len() {
        assert(items.take(i) =~= items);
    } else {
        lemma_grid_releases_step(url, items, i);
        lemma_grid_releases_none(url, items, i + 1);
    }
}

proof fn lemma_client_releases_step(url: Seq<char>, items: Seq<ClientItemV>, i: int)
    requires
        0 <= i < items.len(),
    ensures
        releases_of_client(url, items.take(i + 1)) == match (releases_of_client(
            url,
            items.take(i),
        ), joined_url_of(url, items[i].page_url)) {
            (Some(pre), Some(joined)) => Some(
                pre.push(ReleaseV { id: ReleaseId(items[i].id), url: joined }),
            ),
            _ => None::<Seq<ReleaseV>>,
        },
{
    assert(items.take(i + 1).drop_last() =~= items.take(i));
    assert(items.take(i + 1).last() == items[i]);
}

proof fn lemma_client_releases_none(url: Seq<char>, items: Seq<ClientItemV>, i: int)
    requires
        0 <= i <= items.len(),
        releases_of_client(url, items.take(i)) is None,
    ensures
        releases_of_client(url, items) is None,
    decreases items.len() - i,
{
    if i == items.len() {
        assert(items.take(i) =~= items);
    } else {
        lemma_client_releases_step(url, items, i);
        lemma_client_releases_none(url, items, i + 1);
    }
}

fn grid_releases(url: &str, items: &Vec<crate::extract::GridItem>) -> (r: Result<
    Vec<Release>,
    CrawlError,
>)
    ensures
        match r {
            Ok(rs) => releases_of_grid(
                url@,
                items@.map_values(|g: crate::extract::GridItem| g@),
            ) == Some(rs@.map_values(|x: Release| x@)),
            Err(e) => releases_of_grid(url@, items@.map_values(|g: crate::extract::GridItem| g@))
                is None && e is Extract,
        },
{
    let ghost itemsv = items@.map_values(|g: crate::extract::GridItem| g@);
    let mut out: Vec<Release> = Vec::new();
    let n = items.len();
    let mut i: usize = 0;
    assert(itemsv.take(0) =~= Seq::<GridItemV>::empty());
    assert(out@.map_values(|x: Release| x@) =~= Seq::<ReleaseV>::empty());
    while i < n
        invariant
            0 <= i <= n,
            n == items@.len(),
            itemsv == items@.map_values(|g: crate::extract::GridItem| g@),
            releases_of_grid(url@, itemsv.take(i as int)) == Some(
                out@.map_values(|x: Release| x@),
            ),
        decreases n - i,
    {
        proof {
            lemma_grid_releases_step(url@, itemsv, i as int);
        }
        let ghost pre = out@;
        match crate::urls::url_join(url, items[i].href.as_str()) {
            Some(joined) => {
                out.push(Release { id: ReleaseId(items[i].item_id), url: Url(joined) });
                assert(out@.map_values(|x: Release| x@) =~= pre.map_values(|x: Release| x@).push(
                    out@.last()@,
                ));
            },
            None => {
                proof {
                    lemma_grid_releases_none(url@, itemsv, i + 1);
                }
                return Err(extract_err("artist page: grid reference does not resolve"));
            },
        }
        i = i + 1;
    }
    assert(itemsv.take(n as int) =~= itemsv);
    Ok(out)
}

fn client_releases(url: &str, items: &Vec<crate::extract::ClientItem>) -> (r: Result<
    Vec<Release>,
    CrawlError,
>)
    ensures
        match r {
            Ok(rs) => releases_of_client(
                url@,
                items@.map_values(|c: crate::extract::ClientItem| c@),
            ) == Some(rs@.map_values(|x: Release| x@)),
            Err(e) => releases_of_client(
                url@,
                items@.map_values(|c: crate::extract::ClientItem| c@),
            ) is None && e is Extract,
        },
{
    let ghost itemsv = items@.map_values(|c: crate::extract::ClientItem| c@);
    let mut out: Vec<Release> = Vec::new();
    let n = items.len();
    let mut i: usize = 0;
    assert(itemsv.take(0) =~= Seq::<ClientItemV>::empty());
    assert(out@.map_values(|x: Release| x@) =~= Seq::<ReleaseV>::empty());
    while i < n
        invariant
            0 <= i <= n,
            n == items@.len(),
            itemsv == items@.map_values(|c: crate::extract::ClientItem| c@),
            releases_of_client(url@, itemsv.take(i as int)) == Some(
                out@.map_values(|x: Release| x@),
            ),
        decreases n - i,
    {
        proof {
            lemma_client_releases_step(url@, itemsv, i as int);
        }
        let ghost pre = out@;
        match crate::urls::url_join(url, items[i].page_url.as_str()) {
            Some(joined) => {
                out.push(Release { id: ReleaseId(items[i].id), url: Url(joined) });
                assert(out@.map_values(|x: Release| x@) =~= pre.map_values(|x: Release| x@).push(
                    out@.last()@,
                ));
            },
            None => {
                proof {
                    lemma_client_releases_none(url@, itemsv, i + 1);
                }
                return Err(extract_err("artist page: client reference does not resolve"));
            },
        }
        i = i + 1;
    }
    assert(itemsv.take(n as int) =~= itemsv);
    Ok(out)
}

/// What an artist scrape yields from its page: a batch of the releases in
/// the page's grid, a second batch where a client-rendered list exists, and
/// the artist itself last.
pub open spec fn expected_artist_events(url: Seq<char>, page: ArtistPageV) -> Option<
    Seq<ResponseV>,
> {
    let artist = ArtistV { id: ArtistId(page.band.id), url };
    let details = ArtistDetailsV { name: page.band.name };
    match page.client_items {
        Some(cl) => match (releases_of_grid(url, page.grid_items), releases_of_client(url, cl)) {
            (Some(grid), Some(client)) => Some(
                seq![
                    ResponseV::Releases(artist, grid),
                    ResponseV::Releases(artist, client),
                    ResponseV::Artist(artist, details),
                ],
            ),
            _ => None,
        },
        None => match releases_of_grid(url, page.grid_items) {
            Some(grid) => Some(
                seq![ResponseV::Releases(artist, grid), ResponseV::Artist(artist, details)],
            ),
            None => None,
        },
    }
}

/// Every relationship batch of an artist scrape comes before the primary
/// entity, which comes last.
pub open spec fn artist_events_shape(ev: Seq<ResponseV>) -> bool {
    &&& (ev.len() == 2 || ev.len() == 3)
    &&& forall|i: int| 0 <= i < ev.len() - 1 ==> is_relationship_batch(#[trigger] ev[i])
    &&& is_primary(ev[ev.len() - 1])
}

/// Scrapes an artist page: fetches it through the origin, extracts the band
/// and its releases, and yields the release batches followed by the artist.
pub fn scrape_artist<F: Origin>(origin: &mut F, url: &str) -> (r: Result<Vec<Response>, CrawlError>)
    ensures
        match r {
            Ok(events) => {
                &&& artist_events_shape(events@.map_values(|x: Response| x@))
                &&& exists|page: ArtistPageV|
                    expected_artist_events(url@, page) == Some(
                        events@.map_values(|x: Response| x@),
                    )
            },
            Err(_) => true,
        },
{
    let page_text = origin.get(url)?;
    let page = extract_artist_page(page_text.as_str())?;
    let ghost pagev = page@;
    let artist = Artist { id: ArtistId(page.band.id), url: Url(url.to_owned()) };
    let details = ArtistDetails { name: page.band.name.clone() };
    let grid = grid_releases(url, &page.grid_items)?;
    let ghost gridv = grid@.map_values(|x: Release| x@);
    let ghost artistv = ArtistV { id: ArtistId(pagev.band.id), url: url@ };
    let ghost detailsv = ArtistDetailsV { name: pagev.band.name };
    let mut events: Vec<Response> = Vec::new();
    events.push(Response::Releases(artist.clone(), grid));
    match &page.client_items {
        Some(items) => {
            let client = client_releases(url, items)?;
            proof {
                assert(pagev.client_items matches Some(cl) && releases_of_client(url@, cl)
                    == Some(client@.map_values(|x: Release| x@)));
            }
            let ghost clientv = client@.map_values(|x: Release| x@);
            events.push(Response::Releases(artist.clone(), client));
            events.push(Response::Artist(artist, details));
            proof {
                let evv = events@.map_values(|x: Response| x@);
                let expected = seq![
                    ResponseV::Releases(artistv, gridv),
                    ResponseV::Releases(artistv, clientv),
                    ResponseV::Artist(artistv, detailsv),
                ];
                assert(expected_artist_events(url@, pagev) == Some(expected));
                assert(expected =~= evv);
                assert(expected_artist_events(url@, pagev) == Some(evv));
            }
        },
        None => {
            events.push(Response::Artist(artist, details));
            proof {
                let evv = events@.map_values(|x: Response| x@);
                let expected = seq![
                    ResponseV::Releases(artistv, gridv),
                    ResponseV::Artist(artistv, detailsv),
                ];
                assert(expected_artist_events(url@, pagev) == Some(expected));
                assert(expected =~= evv);
                assert(expected_artist_events(url@, pagev) == Some(evv));
            }
        },
    }
    Ok(events)
}

// ---------------------------------------------------------------------------
// The release scrape.
// ---------------------------------------------------------------------------
/// The sum of a duration list, in seconds.
pub open spec fn sum_secs(s: Seq<i64>) -> int
    decreases s.len(),
{
    if s.len() == 0 {
        0
    } else {
        sum_secs(s.drop_last()) + s.last()
    }
}

/// Whether summing the list left to right stays within the 64-bit range at
/// every step.
pub open spec fn sums_fit(s: Seq<i64>) -> bool
    decreases s.len(),
{
    if s.len() <= 1 {
        true
    } else {
        sums_fit(s.drop_last()) && i64::MIN <= sum_secs(s) <= i64::MAX
    }
}

proof fn lemma_sums_fit_none(s: Seq<i64>, i: int)
    requires
        0 <= i <= s.len(),
        !sums_fit(s.take(i)),
    ensures
        !sums_fit(s),
    decreases s.len() - i,
{
    if i == s.len() {
        assert(s.take(i) =~= s);
    } else {
        assert(s.take(i + 1).drop_last() =~= s.take(i));
        lemma_sums_fit_none(s, i + 1);
    }
}

fn sum_durations(v: &Vec<i64>) -> (r: Option<i64>)
    requires
        v@.len() > 0,
    ensures
        match r {
            Some(s) => sums_fit(v@) && s == sum_secs(v@),
            None => !sums_fit(v@),
        },
{
    let mut acc: i64 = v[0];
    let mut i: usize = 1;
    assert(v@.take(1).drop_last() =~= Seq::<i64>::empty());
    assert(v@.take(1).last() == v@[0]);
    assert(sum_secs(Seq::<i64>::empty()) == 0);
    assert(acc == sum_secs(v@.take(1)));
    let n = v.len();
    while i < n
        invariant
            1 <= i <= n,
            n == v@.len(),
            acc == sum_secs(v@.take(i as int)),
            sums_fit(v@.take(i as int)),
        decreases n - i,
    {
        assert(v@.take(i + 1).drop_last() =~= v@.take(i as int));
        assert(v@.take(i + 1).last() == v@[i as int]);
        acc = match acc.checked_add(v[i]) {
            Some(s) => s,
            None => {
                proof {
                    lemma_sums_fit_none(v@, i + 1);
                }
                return None;
            },
        };
        i = i + 1;
    }
    assert(v@.take(n as int) =~= v@);
    Some(acc)
}

/// The release type a page-properties type code names.
pub open spec fn release_type_spec(item_type: Seq<char>) -> Option<ReleaseType> {
    if item_type == "a"@ {
        Some(ReleaseType::Album)
    } else if item_type == "t"@ {
        Some(ReleaseType::Track)
    } else {
        None
    }
}

/// The whole length of a release: its declared duration where present, else
/// the sum of its track durations, else zero. A sum outside the 64-bit range
/// fails the scrape.
pub open spec fn release_length_spec(ld: crate::extract::ReleaseLdV) -> Option<i64> {
    match ld.duration_secs {
        Some(d) => Some(d),
        None => match ld.tracks {
            Some(tl) => if tl.durations.len() == 0 {
                Some(0)
            } else if sums_fit(tl.durations) {
                Some(sum_secs(tl.durations) as i64)
            } else {
                None
            },
            None => Some(0),
        },
    }
}

/// The resolved release timestamp: the release date, unless it is absent or
/// the epoch sentinel, in which case the publish date stands in.
pub open spec fn resolved_date(dates: crate::extract::TralbumDates) -> (i64, crate::data::Date) {
    match dates.release {
        Some(rd) => if rd.0 == 0 {
            dates.publish
        } else {
            rd
        },
        None => dates.publish,
    }
}

/// The primary entity and details a release scrape yields from its page.
pub open spec fn release_primary_of(url: Seq<char>, page: ReleasePageV) -> Option<
    (ReleaseV, ReleaseDetailsV),
> {
    match (release_type_spec(page.properties.item_type), release_length_spec(page.ld)) {
        (Some(ty), Some(len)) => Some(
            (
                ReleaseV { id: ReleaseId(page.properties.item_id), url },
                ReleaseDetailsV {
                    ty,
                    title: page.ld.title,
                    artist: page.ld.artist,
                    tracks: match page.ld.tracks {
                        Some(t) => Some(t.count),
                        None => None,
                    },
                    length_seconds: len,
                    released: resolved_date(page.dates).1,
                },
            ),
        ),
        _ => None,
    }
}

/// The owning artist a release scrape yields: the page's discography
/// reference resolved against the page URL, or the site root of the page.
pub open spec fn release_artist_of(url: Seq<char>, page: ReleasePageV) -> Option<ArtistV> {
    match (match page.discography {
        Some(d) => joined_url_of(url, d),
        None => joined_url_of(url, "/"@),
    }) {
        Some(j) => Some(ArtistV { id: ArtistId(page.band.id), url: j }),
        None => None,
    }
}

/// How the paginated collectors calls may have gone: with more pages
/// announced and a token to start from, one or more pages were fetched, every
/// page carried at least one entry, every page but the last announced more,
/// and the last did not; otherwise no page was fetched.
pub open spec fn thumbs_pagination_ok(
    first_more: bool,
    has_token: bool,
    pages: Seq<ThumbsPageV>,
) -> bool {
    if first_more && has_token {
        &&& pages.len() > 0
        &&& forall|i: int| 0 <= i < pages.len() ==> (#[trigger] pages[i]).results.len() > 0
        &&& forall|i: int| 0 <= i < pages.len() - 1 ==> (#[trigger] pages[i]).more_available
        &&& !pages.last().more_available
    } else {
        pages.len() == 0
    }
}

/// What a release scrape yields: the owning artist, one fan batch for the
/// reviews, one for the embedded thumb entries, one per fetched collectors
/// page, and the release itself last.
pub open spec fn expected_release_events(
    url: Seq<char>,
    page: ReleasePageV,
    pages: Seq<ThumbsPageV>,
) -> Option<Seq<ResponseV>> {
    match (release_primary_of(url, page), release_artist_of(url, page)) {
        (Some(prim), Some(artist)) => Some(
            seq![
                ResponseV::ReleaseArtist(prim.0, artist),
                ResponseV::Fans(prim.0, users_of_reviews(page.collectors.reviews)),
                ResponseV::Fans(prim.0, users_of_fans(page.collectors.thumbs)),
            ] + pages.map_values(
                |p: ThumbsPageV| ResponseV::Fans(prim.0, users_of_fans(p.results)),
            ) + seq![ResponseV::Release(prim.0, prim.1)],
        ),
        _ => None,
    }
}

/// The owning artist of a release scrape comes first, every relationship
/// batch after it, and the primary entity last.
pub open spec fn release_events_shape(ev: Seq<ResponseV>) -> bool {
    &&& ev.len() >= 4
    &&& is_owning_artist(ev[0])
    &&& forall|i: int| 1 <= i < ev.len() - 1 ==> is_relationship_batch(#[trigger] ev[i])
    &&& is_primary(ev[ev.len() - 1])
}

/// Emission-order and pagination law for a release scrape: the owning artist
/// fires before any relationship batch, the batches before the primary
/// release, which comes last; and against a source that reports no more
/// pages after the K-th collectors page, exactly K paginated fan batches are
/// emitted — 2 + K relationship batches in all, never K + 1.
pub proof fn lemma_release_event_count(
    url: Seq<char>,
    page: ReleasePageV,
    pages: Seq<ThumbsPageV>,
    ev: Seq<ResponseV>,
)
    requires
        expected_release_events(url, page, pages) == Some(ev),
    ensures
        ev.len() == 4 + pages.len(),
        is_owning_artist(ev[0]),
        forall|i: int| 1 <= i < ev.len() - 1 ==> is_relationship_batch(#[trigger] ev[i]),
        is_primary(ev[ev.len() - 1]),
{
    assert forall|i: int| 1 <= i < ev.len() - 1 implies is_relationship_batch(
        #[trigger] ev[i],
    ) by {
        let prim = release_primary_of(url, page).unwrap();
        let mid = pages.map_values(
            |p: ThumbsPageV| ResponseV::Fans(prim.0, users_of_fans(p.results)),
        );
        if i >= 3 {
            assert(ev[i] == mid[i - 3]);
        }
    };
}

/// Scrapes a release page: fetches it through the origin, emits the owning
/// artist, the embedded fan batches, one batch per collectors page until the
/// origin reports no more, and the release itself last.
pub fn scrape_release<F: Origin>(origin: &mut F, url: &str) -> (r: Result<
    Vec<Response>,
    CrawlError,
>)
    ensures
        match r {
            Ok(events) => {
                &&& release_events_shape(events@.map_values(|x: Response| x@))
                &&& exists|page: ReleasePageV, pages: Seq<ThumbsPageV>|
                    {
                        &&& expected_release_events(url@, page, pages) == Some(
                            events@.map_values(|x: Response| x@),
                        )
                        &&& thumbs_pagination_ok(
                            page.collectors.more_thumbs_available,
                            page.collectors.thumbs.len() > 0,
                            pages,
                        )
                    }
            },
            Err(_) => true,
        },
{
    let page_text = origin.get(url)?;
    let page = extract_release_page(page_text.as_str())?;
    let ghost pagev = page@;
    let ty = if crate::text::str_eq(page.properties.item_type.as_str(), "a") {
        ReleaseType::Album
    } else if crate::text::str_eq(page.properties.item_type.as_str(), "t") {
        ReleaseType::Track
    } else {
        return Err(extract_err("unknown release type"));
    };
    let length_seconds: i64 = match page.ld.duration_secs {
        Some(d) => d,
        None => match &page.ld.tracks {
            Some(tl) => {
                if tl.durations.len() == 0 {
                    0
                } else {
                    match sum_durations(&tl.durations) {
                        Some(s) => s,
                        None => {
                            return Err(extract_err("track durations overflow"));
                        },
                    }
                }
            },
            None => 0,
        },
    };
    let released: crate::data::Date = match page.dates.release {
        Some(rd) => {
            if rd.0 == 0 {
                page.dates.publish.1
            } else {
                rd.1
            }
        },
        None => page.dates.publish.1,
    };
    let release = Release { id: ReleaseId(page.properties.item_id), url: Url(url.to_owned()) };
    let details = ReleaseDetails {
        ty,
        title: page.ld.title.clone(),
        artist: page.ld.artist.clone(),
        tracks: match &page.ld.tracks {
            Some(t) => Some(t.count),
            None => None,
        },
        length_seconds,
        released,
    };
    let artist_join = match &page.discography {
        Some(d) => crate::urls::url_join(url, d.as_str()),
        None => crate::urls::url_join(url, "/"),
    };
    let artist = match artist_join {
        Some(j) => Artist { id: ArtistId(page.band.id), url: Url(j) },
        None => {
            return Err(extract_err("release page: discography does not resolve"));
        },
    };
    let ghost primv = (release@, details@);
    let ghost artistv = artist@;
    proof {
        assert(release_primary_of(url@, pagev) == Some(primv));
        assert(release_artist_of(url@, pagev) == Some(artistv));
    }
    let mut events: Vec<Response> = Vec::new();
    events.push(Response::ReleaseArtist(release.clone(), artist));
    events.push(Response::Fans(release.clone(), review_users(&page.collectors.reviews)));
    events.push(Response::Fans(release.clone(), fan_users(&page.collectors.thumbs)));
    let ghost prefix3 = seq![
        ResponseV::ReleaseArtist(primv.0, artistv),
        ResponseV::Fans(primv.0, users_of_reviews(pagev.collectors.reviews)),
        ResponseV::Fans(primv.0, users_of_fans(pagev.collectors.thumbs)),
    ];
    proof {
        assert(events@.map_values(|x: Response| x@) =~= prefix3);
    }
    let ghost mut pages: Seq<ThumbsPageV> = Seq::<ThumbsPageV>::empty();
    let mut more = page.collectors.more_thumbs_available;
    let has_token = page.collectors.thumbs.len() > 0;
    let mut token: String = if has_token {
        page.collectors.thumbs[page.collectors.thumbs.len() - 1].token.clone()
    } else {
        String::new()
    };
    let mut fuel: u64 = u64::MAX;
    if has_token {
        while more
            invariant
                release_primary_of(url@, pagev) == Some(primv),
                release_artist_of(url@, pagev) == Some(artistv),
                release@ == primv.0,
                pagev.collectors.thumbs.len() > 0,
                events@.map_values(|x: Response| x@) =~= prefix3 + pages.map_values(
                    |p: ThumbsPageV| ResponseV::Fans(primv.0, users_of_fans(p.results)),
                ),
                prefix3 == seq![
                    ResponseV::ReleaseArtist(primv.0, artistv),
                    ResponseV::Fans(primv.0, users_of_reviews(pagev.collectors.reviews)),
                    ResponseV::Fans(primv.0, users_of_fans(pagev.collectors.thumbs)),
                ],
                forall|i: int| 0 <= i < pages.len() ==> (#[trigger] pages[i]).results.len() > 0,
                forall|i: int| 0 <= i < pages.len() - 1 ==> (#[trigger] pages[i]).more_available,
                pages.len() > 0 ==> more == pages.last().more_available,
                pages.len() == 0 ==> more == pagev.collectors.more_thumbs_available,
                pages.len() > 0 ==> pagev.collectors.more_thumbs_available,
            decreases fuel,
        {
            if fuel == 0 {
                return Err(extract_err("collectors pagination does not end"));
            }
            fuel = fuel - 1;
            let api_url = match crate::urls::url_join(url, "/api/tralbumcollectors/2/thumbs") {
                Some(u) => u,
                None => {
                    return Err(extract_err("release page: collectors endpoint does not resolve"));
                },
            };
            let body = crate::json::collectors_body(
                page.properties.item_type.as_str(),
                page.properties.item_id,
                token.as_str(),
            );
            let resp = origin.post(api_url.as_str(), body.as_str())?;
            let tp = parse_thumbs(resp.as_str())?;
            if tp.results.len() == 0 {
                return Err(extract_err("collectors response: empty page"));
            }
            token = tp.results[tp.results.len() - 1].token.clone();
            more = tp.more_available;
            let us = fan_users(&tp.results);
            let ghost pre_pages = pages;
            let ghost pre_events = events@;
            events.push(Response::Fans(release.clone(), us));
            proof {
                pages = pages.push(tp@);
                assert(pages.drop_last() =~= pre_pages);
                assert(events@.last()@ == ResponseV::Fans(primv.0, users_of_fans(tp@.results)));
                assert(events@.map_values(|x: Response| x@) =~= pre_events.map_values(
                    |x: Response| x@,
                ).push(events@.last()@));
                assert(pages.map_values(
                    |p: ThumbsPageV| ResponseV::Fans(primv.0, users_of_fans(p.results)),
                ) =~= pre_pages.map_values(
                    |p: ThumbsPageV| ResponseV::Fans(primv.0, users_of_fans(p.results)),
                ).push(ResponseV::Fans(primv.0, users_of_fans(tp@.results))));
                assert((prefix3 + pre_pages.map_values(
                    |p: ThumbsPageV| ResponseV::Fans(primv.0, users_of_fans(p.results)),
                )).push(ResponseV::Fans(primv.0, users_of_fans(tp@.results))) =~= prefix3
                    + pages.map_values(
                    |p: ThumbsPageV| ResponseV::Fans(primv.0, users_of_fans(p.results)),
                ));
                assert(events@.map_values(|x: Response| x@) =~= prefix3 + pages.map_values(
                    |p: ThumbsPageV| ResponseV::Fans(primv.0, users_of_fans(p.results)),
                ));
            }
        }
    }
    let ghost pre_final = events@;
    events.push(Response::Release(release, details));
    proof {
        let evv = events@.map_values(|x: Response| x@);
        assert(evv =~= pre_final.map_values(|x: Response| x@).push(
            ResponseV::Release(primv.0, primv.1),
        ));
        let mid = pages.map_values(
            |p: ThumbsPageV| ResponseV::Fans(primv.0, users_of_fans(p.results)),
        );
        assert(evv =~= prefix3 + mid + seq![ResponseV::Release(primv.0, primv.1)]);
        assert(expected_release_events(url@, pagev, pages) == Some(
            prefix3 + mid + seq![ResponseV::Release(primv.0, primv.1)],
        ));
        assert(expected_release_events(url@, pagev, pages) == Some(evv));
        assert(thumbs_pagination_ok(
            pagev.collectors.more_thumbs_available,
            pagev.collectors.thumbs.len() > 0,
            pages,
        ));
        assert(release_events_shape(evv)) by {
            assert(evv.len() == 4 + pages.len());
            assert(is_owning_artist(evv[0]));
            assert(is_primary(evv[evv.len() - 1]));
            assert forall|i: int| 1 <= i < evv.len() - 1 implies is_relationship_batch(
                #[trigger] evv[i],
            ) by {
                if i < 3 {
                    assert(evv[i] == prefix3[i]);
                } else {
                    assert(evv[i] == mid[i - 3]);
                }
            };
        };
    }
    Ok(events)
}

// ---------------------------------------------------------------------------
// The fan scrape.
// ---------------------------------------------------------------------------
/// The user entity a fan page names.
pub open spec fn fan_user_of(page: FanPageV) -> UserV {
    user_of(page.fan_data.fan_id, page.fan_data.username)
}

/// Whether the embedded collection is announced as incomplete, so that the
/// paginated collection calls must follow.
pub open spec fn fan_initial_more(page: FanPageV) -> bool {
    match crate::extract::resolve_collection_spec(page.sequence, page.collection) {
        Some(items) => items.len() < page.collection_count,
        None => false,
    }
}

/// How the paginated collection calls may have gone: with more items
/// announced, one or more pages were fetched, every page but the last
/// announced more, and the last did not; otherwise no page was fetched.
pub open spec fn collections_pagination_ok(first_more: bool, pages: Seq<CollectionsPageV>) -> bool {
    if first_more {
        &&& pages.len() > 0
        &&& forall|i: int| 0 <= i < pages.len() - 1 ==> (#[trigger] pages[i]).more_available
        &&& !pages.last().more_available
    } else {
        pages.len() == 0
    }
}

/// What a fan scrape yields: one collection batch for the embedded items,
/// one per fetched collection page, and the user itself last.
pub open spec fn expected_fan_events(page: FanPageV, pages: Seq<CollectionsPageV>) -> Option<
    Seq<ResponseV>,
> {
    match crate::extract::resolve_collection_spec(page.sequence, page.collection) {
        Some(items) => Some(
            seq![ResponseV::Collection(fan_user_of(page), releases_of_items(items))]
                + pages.map_values(
                |p: CollectionsPageV| ResponseV::Collection(
                    fan_user_of(page),
                    releases_of_items(p.items),
                ),
            ) + seq![
                ResponseV::User(
                    fan_user_of(page),
                    UserDetailsV { name: page.fan_data.name, username: page.fan_data.username },
                ),
            ],
        ),
        None => None,
    }
}

/// Every relationship batch of a fan scrape comes before the primary entity,
/// which comes last.
pub open spec fn fan_events_shape(ev: Seq<ResponseV>) -> bool {
    &&& ev.len() >= 2
    &&& forall|i: int| 0 <= i < ev.len() - 1 ==> is_relationship_batch(#[trigger] ev[i])
    &&& is_primary(ev[ev.len() - 1])
}

/// Emission-order and pagination law for a fan scrape: every relationship
/// batch fires before the primary user, which comes last; and against a
/// source that reports no more pages after the K-th collection page, exactly
/// K paginated collection batches are emitted — 1 + K in all.
pub proof fn lemma_fan_event_count(page: FanPageV, pages: Seq<CollectionsPageV>, ev: Seq<ResponseV>)
    requires
        expected_fan_events(page, pages) == Some(ev),
    ensures
        ev.len() == 2 + pages.len(),
        forall|i: int| 0 <= i < ev.len() - 1 ==> is_relationship_batch(#[trigger] ev[i]),
        is_primary(ev[ev.len() - 1]),
{
    assert forall|i: int| 0 <= i < ev.len() - 1 implies is_relationship_batch(
        #[trigger] ev[i],
    ) by {
        let mid = pages.map_values(
            |p: CollectionsPageV| ResponseV::Collection(fan_user_of(page), releases_of_items(p.items)),
        );
        if i >= 1 {
            assert(ev[i] == mid[i - 1]);
        }
    };
}

/// Scrapes a fan page: fetches it through the origin, reconstructs the
/// embedded collection, follows the paginated collection calls until the
/// origin reports no more, and yields the user itself last.
pub fn scrape_fan<F: Origin>(origin: &mut F, url: &str) -> (r: Result<Vec<Response>, CrawlError>)
    ensures
        match r {
            Ok(events) => {
                &&& fan_events_shape(events@.map_values(|x: Response| x@))
                &&& exists|page: FanPageV, pages: Seq<CollectionsPageV>|
                    {
                        &&& expected_fan_events(page, pages) == Some(
                            events@.map_values(|x: Response| x@),
                        )
                        &&& collections_pagination_ok(fan_initial_more(page), pages)
                    }
            },
            Err(_) => true,
        },
{
    let page_text = origin.get(url)?;
    let page = extract_fan_page(page_text.as_str())?;
    let ghost pagev = page@;
    let user = make_user(page.fan_data.fan_id, page.fan_data.username.as_str());
    let details = UserDetails {
        name: page.fan_data.name.clone(),
        username: page.fan_data.username.clone(),
    };
    let items = crate::extract::resolve_collection(&page.sequence, page.collection)?;
    let ghost userv = user@;
    let ghost itemsv = items@.map_values(|x: crate::extract::CollectionItem| x@);
    proof {
        assert(crate::extract::resolve_collection_spec(pagev.sequence, pagev.collection) == Some(
            itemsv,
        ));
        assert(userv == fan_user_of(pagev));
    }
    let mut more = (items.len() as u64) < page.collection_count;
    let ghost initial_more = more;
    proof {
        assert(fan_initial_more(pagev) == initial_more);
    }
    let mut token = page.last_token;
    let mut events: Vec<Response> = Vec::new();
    events.push(Response::Collection(user.clone(), item_releases(&items)));
    let ghost first = seq![ResponseV::Collection(userv, releases_of_items(itemsv))];
    proof {
        assert(events@.map_values(|x: Response| x@) =~= first);
    }
    let ghost mut pages: Seq<CollectionsPageV> = Seq::<CollectionsPageV>::empty();
    let mut fuel: u64 = u64::MAX;
    while more
        invariant
            userv == fan_user_of(pagev),
            user@ == userv,
            crate::extract::resolve_collection_spec(pagev.sequence, pagev.collection) == Some(
                itemsv,
            ),
            first == seq![ResponseV::Collection(userv, releases_of_items(itemsv))],
            events@.map_values(|x: Response| x@) =~= first + pages.map_values(
                |p: CollectionsPageV| ResponseV::Collection(userv, releases_of_items(p.items)),
            ),
            forall|i: int| 0 <= i < pages.len() - 1 ==> (#[trigger] pages[i]).more_available,
            pages.len() > 0 ==> more == pages.last().more_available,
            pages.len() == 0 ==> more == initial_more,
            pages.len() > 0 ==> initial_more,
        decreases fuel,
    {
        if fuel == 0 {
            return Err(extract_err("collection pagination does not end"));
        }
        fuel = fuel - 1;
        let body = crate::json::collections_body(page.fan_data.fan_id, token.as_str());
        let resp = origin.post(
            "https://bandcamp.com/api/fancollection/1/collection_items",
            body.as_str(),
        )?;
        let cp = parse_collections(resp.as_str())?;
        more = cp.more_available;
        token = cp.last_token.clone();
        let rs = item_releases(&cp.items);
        let ghost pre_pages = pages;
        let ghost pre_events = events@;
        events.push(Response::Collection(user.clone(), rs));
        proof {
            pages = pages.push(cp@);
            assert(pages.drop_last() =~= pre_pages);
            assert(events@.last()@ == ResponseV::Collection(
                userv,
                releases_of_items(cp@.items),
            ));
            assert(events@.map_values(|x: Response| x@) =~= pre_events.map_values(
                |x: Response| x@,
            ).push(events@.last()@));
            assert(pages.map_values(
                |p: CollectionsPageV| ResponseV::Collection(userv, releases_of_items(p.items)),
            ) =~= pre_pages.map_values(
                |p: CollectionsPageV| ResponseV::Collection(userv, releases_of_items(p.items)),
            ).push(ResponseV::Collection(userv, releases_of_items(cp@.items))));
            assert((first + pre_pages.map_values(
                |p: CollectionsPageV| ResponseV::Collection(userv, releases_of_items(p.items)),
            )).push(ResponseV::Collection(userv, releases_of_items(cp@.items))) =~= first
                + pages.map_values(
                |p: CollectionsPageV| ResponseV::Collection(userv, releases_of_items(p.items)),
            ));
            assert(events@.map_values(|x: Response| x@) =~= first + pages.map_values(
                |p: CollectionsPageV| ResponseV::Collection(userv, releases_of_items(p.items)),
            ));
        }
    }
    let ghost pre_final = events@;
    events.push(Response::User(user, details));
    proof {
        let evv = events@.map_values(|x: Response| x@);
        let detv = UserDetailsV { name: pagev.fan_data.name, username: pagev.fan_data.username };
        assert(evv =~= pre_final.map_values(|x: Response| x@).push(ResponseV::User(userv, detv)));
        let mid = pages.map_values(
            |p: CollectionsPageV| ResponseV::Collection(userv, releases_of_items(p.items)),
        );
        assert(evv =~= first + mid + seq![ResponseV::User(userv, detv)]);
        assert(expected_fan_events(pagev, pages) == Some(
            first + mid + seq![ResponseV::User(userv, detv)],
        ));
        assert(expected_fan_events(pagev, pages) == Some(evv));
        assert(collections_pagination_ok(fan_initial_more(pagev), pages));
        assert(fan_events_shape(evv)) by {
            assert(evv.len() == 2 + pages.len());
            assert(is_primary(evv[evv.len() - 1]));
            assert forall|i: int| 0 <= i < evv.len() - 1 implies is_relationship_batch(
                #[trigger] evv[i],
            ) by {
                if i < 1 {
                    assert(evv[i] == first[i]);
                } else {
                    assert(evv[i] == mid[i - 1]);
                }
            };
        };
    }
    Ok(events)
}

} // verus!

//! Scenario tests for the scrape protocols against synthetic pages and a
//! scripted origin: emission order, pagination termination after exactly K
//! pages, date and duration fallbacks, and the extraction error cases.

use crawlcore::error::CrawlError;
use crawlcore::request::Response;
use crawlcore::scrape::{scrape_artist, scrape_fan, scrape_release, Origin};

/// A synthetic origin: one page body for GET, and a script of POST response
/// bodies handed out in order, recording every call.
struct FakeOrigin {
    page: String,
    posts: Vec<String>,
    next_post: usize,
    get_urls: Vec<String>,
    post_calls: Vec<(String, String)>,
}

impl FakeOrigin {
    fn new(page: &str, posts: Vec<String>) -> FakeOrigin {
        FakeOrigin {
            page: page.to_owned(),
            posts,
            next_post: 0,
            get_urls: Vec::new(),
            post_calls: Vec::new(),
        }
    }
}

impl Origin for FakeOrigin {
    fn get(&mut self, url: &str) -> Result<String, CrawlError> {
        self.get_urls.push(url.to_owned());
        Ok(self.page.clone())
    }

    fn post(&mut self, url: &str, body: &str) -> Result<String, CrawlError> {
        self.post_calls.push((url.to_owned(), body.to_owned()));
        let i = self.next_post;
        self.next_post += 1;
        match self.posts.get(i) {
            Some(b) => Ok(b.clone()),
            None => Err(CrawlError::Network("script exhausted".to_owned())),
        }
    }
}

fn release_page(item_type: &str, more_thumbs: bool, release_date: &str) -> String {
    format!(
        "<html><head>\
         <meta name=bc-page-properties content='{{\"item_type\":\"{item_type}\",\"item_id\":42}}'>\
         <script type=\"application/ld+json\">{{\"name\":\"Cool Album\",\
         \"byArtist\":{{\"name\":\"The Band\"}},\
         \"track\":{{\"itemListElement\":[{{\"item\":{{\"duration\":\"P00H02M03S\"}}}},\
         {{\"item\":{{\"duration\":\"PT1M\"}}}}],\"numberOfItems\":2}}}}</script>\
         </head><body>\
         <div data-band='{{\"id\":7,\"name\":\"The Band\"}}'></div>\
         <div data-tralbum='{{\"current\":{{\"release_date\":\"{release_date}\",\
         \"publish_date\":\"Sat, 01 Feb 2020 03:00:00 +0000\"}}}}'></div>\
         <div id=\"collectors-data\" data-blob='{{\"more_thumbs_available\":{more_thumbs},\
         \"reviews\":[{{\"fan_id\":1,\"username\":\"rev1\"}}],\
         \"thumbs\":[{{\"fan_id\":2,\"username\":\"fan2\",\"token\":\"tok1\"}}]}}'></div>\
         <div id=\"discography\"><a class=\"link-and-title\" href=\"/music\">d</a></div>\
         </body></html>"
    )
}

fn thumbs_page(fan_id: u64, username: &str, token: &str, more: bool) -> String {
    format!(
        "{{\"results\":[{{\"fan_id\":{fan_id},\"username\":\"{username}\",\"token\":\"{token}\"}}],\"more_available\":{more}}}"
    )
}

#[test]
fn release_scrape_orders_events_and_stops_after_k_pages() {
    // The synthetic source reports more_available=false on its second page:
    // exactly two paginated batches come out, 2 + 2 batches in all.
    let page = release_page("a", true, "Thu, 01 Jan 1970 00:00:00 +0000");
    let posts = vec![
        thumbs_page(3, "fan3", "tok2", true),
        thumbs_page(4, "fan4", "tok3", false),
    ];
    let mut origin = FakeOrigin::new(&page, posts);
    let url = "https://x.bandcamp.com/album/a";
    let events = scrape_release(&mut origin, url).unwrap();

    assert_eq!(events.len(), 6);
    match &events[0] {
        Response::ReleaseArtist(release, artist) => {
            assert_eq!(release.id.0, 42);
            assert_eq!(release.url.0, url);
            assert_eq!(artist.id.0, 7);
            assert_eq!(artist.url.0, "https://x.bandcamp.com/music");
        },
        other => panic!("expected owning artist first, got {other:?}"),
    }
    let expected_fans: [&[(u64, &str)]; 4] = [
        &[(1, "https://bandcamp.com/rev1")],
        &[(2, "https://bandcamp.com/fan2")],
        &[(3, "https://bandcamp.com/fan3")],
        &[(4, "https://bandcamp.com/fan4")],
    ];
    for (k, expected) in expected_fans.iter().enumerate() {
        match &events[k + 1] {
            Response::Fans(release, users) => {
                assert_eq!(release.id.0, 42);
                let got: Vec<(u64, &str)> =
                    users.iter().map(|u| (u.id.0, u.url.0.as_str())).collect();
                assert_eq!(&got[..], *expected);
            },
            other => panic!("expected a fan batch at {k}, got {other:?}"),
        }
    }
    match &events[5] {
        Response::Release(release, details) => {
            assert_eq!(release.id.0, 42);
            assert!(matches!(details.ty, crawlcore::data::ReleaseType::Album));
            assert_eq!(details.title, "Cool Album");
            assert_eq!(details.artist, "The Band");
            assert_eq!(details.tracks, Some(2));
            // No top-level duration: the track durations 123s and 60s sum up.
            assert_eq!(details.length_seconds, 183);
            // The release date is the epoch sentinel: the publish date stands in.
            let d = details.released;
            assert_eq!((d.year, d.month, d.day), (2020, 2, 1));
        },
        other => panic!("expected the primary release last, got {other:?}"),
    }

    // Exactly two POST calls went out, to the collectors endpoint, carrying
    // the continuation tokens in turn.
    assert_eq!(origin.post_calls.len(), 2);
    assert_eq!(origin.post_calls[0].0, "https://x.bandcamp.com/api/tralbumcollectors/2/thumbs");
    assert_eq!(origin.post_calls[0].1, crawlcore::json::collectors_body("a", 42, "tok1"));
    assert_eq!(origin.post_calls[1].1, crawlcore::json::collectors_body("a", 42, "tok2"));
    assert_eq!(origin.get_urls, vec![url.to_owned()]);
}

#[test]
fn release_scrape_with_no_more_thumbs_fetches_nothing() {
    let page = release_page("t", false, "Sun, 02 Feb 2020 15:00:00 +0000");
    let mut origin = FakeOrigin::new(&page, vec![]);
    let events = scrape_release(&mut origin, "https://x.bandcamp.com/track/t").unwrap();
    assert_eq!(events.len(), 4);
    assert_eq!(origin.post_calls.len(), 0);
    match &events[3] {
        Response::Release(_, details) => {
            assert!(matches!(details.ty, crawlcore::data::ReleaseType::Track));
            // A real release date is kept, rounded to its day (15:00 rounds up).
            let d = details.released;
            assert_eq!((d.year, d.month, d.day), (2020, 2, 3));
        },
        other => panic!("expected the primary release last, got {other:?}"),
    }
}

#[test]
fn release_scrape_without_token_skips_pagination_even_if_more() {
    // More thumbs are announced, but with no embedded thumb entry there is
    // no continuation token to start from: no page is fetched.
    let page = release_page("a", true, "Sat, 01 Feb 2020 03:00:00 +0000").replace(
        "\"thumbs\":[{\"fan_id\":2,\"username\":\"fan2\",\"token\":\"tok1\"}]",
        "\"thumbs\":[]",
    );
    let mut origin = FakeOrigin::new(&page, vec![]);
    let events = scrape_release(&mut origin, "https://x.bandcamp.com/album/a").unwrap();
    assert_eq!(events.len(), 4);
    assert_eq!(origin.post_calls.len(), 0);
    match &events[2] {
        Response::Fans(_, users) => assert!(users.is_empty()),
        other => panic!("expected the empty thumbs batch, got {other:?}"),
    }
}

#[test]
fn release_scrape_missing_release_date_falls_back_to_publish() {
    let page = release_page("a", false, "unused").replace(
        "\"release_date\":\"unused\",",
        "",
    );
    let mut origin = FakeOrigin::new(&page, vec![]);
    let events = scrape_release(&mut origin, "https://x.bandcamp.com/album/a").unwrap();
    match events.last().unwrap() {
        Response::Release(_, details) => {
            let d = details.released;
            assert_eq!((d.year, d.month, d.day), (2020, 2, 1));
        },
        other => panic!("expected the primary release last, got {other:?}"),
    }
}

#[test]
fn release_scrape_rejects_unknown_type_code() {
    let page = release_page("x", false, "Sat, 01 Feb 2020 03:00:00 +0000");
    let mut origin = FakeOrigin::new(&page, vec![]);
    let r = scrape_release(&mut origin, "https://x.bandcamp.com/album/a");
    assert!(matches!(r, Err(CrawlError::Extract(_))));
}

#[test]
fn release_scrape_rejects_missing_collectors_blob() {
    let page = "<html><body><div data-band='{\"id\":7,\"name\":\"b\"}'></div></body></html>";
    let mut origin = FakeOrigin::new(page, vec![]);
    let r = scrape_release(&mut origin, "https://x.bandcamp.com/album/a");
    assert!(matches!(r, Err(CrawlError::Extract(_))));
}

#[test]
fn release_scrape_rejects_empty_pagination_page() {
    let page = release_page("a", true, "Sat, 01 Feb 2020 03:00:00 +0000");
    let posts = vec!["{\"results\":[],\"more_available\":true}".to_owned()];
    let mut origin = FakeOrigin::new(&page, posts);
    let r = scrape_release(&mut origin, "https://x.bandcamp.com/album/a");
    assert!(matches!(r, Err(CrawlError::Extract(_))));
}

fn artist_page() -> String {
    "<html><body>\
     <div data-band='{\"id\":7,\"name\":\"The Band\"}'></div>\
     <ol id=\"music-grid\" data-client-items=\
     '[{\"art_id\":1,\"band_id\":7,\"id\":501,\"page_url\":\"/album/c\",\
     \"title\":\"C\",\"type\":\"album\"}]'>\
     <li class=\"music-grid-item\" data-item-id=\"album-101\">\
     <a href=\"/album/a1\"><p class=\"title\">A1</p></a></li>\
     <li class=\"music-grid-item\" data-item-id=\"track-102\">\
     <a href=\"/album/a2\"><p class=\"title\">A2</p></a></li>\
     </ol></body></html>".to_owned()
}

#[test]
fn artist_scrape_emits_grid_then_client_then_artist() {
    let page = artist_page();
    let mut origin = FakeOrigin::new(&page, vec![]);
    let url = "https://x.bandcamp.com/music";
    let events = scrape_artist(&mut origin, url).unwrap();
    assert_eq!(events.len(), 3);
    match &events[0] {
        Response::Releases(artist, releases) => {
            assert_eq!(artist.id.0, 7);
            assert_eq!(artist.url.0, url);
            let got: Vec<(u64, &str)> =
                releases.iter().map(|r| (r.id.0, r.url.0.as_str())).collect();
            assert_eq!(
                got,
                vec![
                    (101, "https://x.bandcamp.com/album/a1"),
                    (102, "https://x.bandcamp.com/album/a2"),
                ]
            );
        },
        other => panic!("expected the grid batch first, got {other:?}"),
    }
    match &events[1] {
        Response::Releases(_, releases) => {
            let got: Vec<(u64, &str)> =
                releases.iter().map(|r| (r.id.0, r.url.0.as_str())).collect();
            assert_eq!(got, vec![(501, "https://x.bandcamp.com/album/c")]);
        },
        other => panic!("expected the client batch second, got {other:?}"),
    }
    match &events[2] {
        Response::Artist(artist, details) => {
            assert_eq!(artist.id.0, 7);
            assert_eq!(details.name, "The Band");
        },
        other => panic!("expected the primary artist last, got {other:?}"),
    }
}

#[test]
fn artist_scrape_requires_the_grid_container() {
    let page = "<html><body><div data-band='{\"id\":7,\"name\":\"b\"}'></div></body></html>";
    let mut origin = FakeOrigin::new(page, vec![]);
    let r = scrape_artist(&mut origin, "https://x.bandcamp.com/music");
    assert!(matches!(r, Err(CrawlError::Extract(_))));
}

#[test]
fn artist_scrape_rejects_malformed_grid_id() {
    let page = "<html><body>\
     <div data-band='{\"id\":7,\"name\":\"b\"}'></div>\
     <ol id=\"music-grid\">\
     <li class=\"music-grid-item\" data-item-id=\"nodash\">\
     <a href=\"/a\"><p class=\"title\">T</p></a></li>\
     </ol></body></html>";
    let mut origin = FakeOrigin::new(page, vec![]);
    let r = scrape_artist(&mut origin, "https://x.bandcamp.com/music");
    assert!(matches!(r, Err(CrawlError::Extract(_))));
}

fn fan_page(sequence: &str) -> String {
    format!(
        "<html><body><div id=\"pagedata\" data-blob='{{\
         \"fan_data\":{{\"fan_id\":9,\"name\":\"Nine\",\"username\":\"nine\"}},\
         \"collection_count\":3,\
         \"collection_data\":{{\"last_token\":\"t0\",\"sequence\":{sequence}}},\
         \"item_cache\":{{\"collection\":{{\
         \"k1\":{{\"item_id\":201,\"item_url\":\"https://x.bandcamp.com/album/a\"}},\
         \"k2\":{{\"item_id\":202,\"item_url\":\"https://y.bandcamp.com/album/b\"}}\
         }}}}}}'></div></body></html>"
    )
}

#[test]
fn fan_scrape_resolves_sequence_then_paginates() {
    let page = fan_page("[\"k2\",\"k1\"]");
    let posts = vec![
        "{\"more_available\":false,\"last_token\":\"t1\",\"items\":[{\"item_id\":203,\"item_url\":\"https://z.bandcamp.com/album/c\"}]}".to_owned(),
    ];
    let mut origin = FakeOrigin::new(&page, posts);
    let events = scrape_fan(&mut origin, "https://bandcamp.com/nine").unwrap();
    assert_eq!(events.len(), 3);
    match &events[0] {
        Response::Collection(user, releases) => {
            assert_eq!(user.id.0, 9);
            assert_eq!(user.url.0, "https://bandcamp.com/nine");
            // The embedded batch follows the sequence order, not the map order.
            let got: Vec<u64> = releases.iter().map(|r| r.id.0).collect();
            assert_eq!(got, vec![202, 201]);
        },
        other => panic!("expected the embedded batch first, got {other:?}"),
    }
    match &events[1] {
        Response::Collection(_, releases) => {
            let got: Vec<u64> = releases.iter().map(|r| r.id.0).collect();
            assert_eq!(got, vec![203]);
        },
        other => panic!("expected the paginated batch second, got {other:?}"),
    }
    match &events[2] {
        Response::User(user, details) => {
            assert_eq!(user.id.0, 9);
            assert_eq!(details.name, "Nine");
            assert_eq!(details.username, "nine");
        },
        other => panic!("expected the primary user last, got {other:?}"),
    }
    assert_eq!(origin.post_calls.len(), 1);
    assert_eq!(
        origin.post_calls[0].0,
        "https://bandcamp.com/api/fancollection/1/collection_items"
    );
    assert_eq!(origin.post_calls[0].1, crawlcore::json::collections_body(9, "t0"));
}

#[test]
fn fan_scrape_complete_collection_skips_pagination() {
    // collection_count is 3 but only 2 keys resolve; lower the count by
    // resolving all of a 2-item collection against a count of 2 instead.
    let page = fan_page("[\"k1\",\"k2\"]").replace("\"collection_count\":3", "\"collection_count\":2");
    let mut origin = FakeOrigin::new(&page, vec![]);
    let events = scrape_fan(&mut origin, "https://bandcamp.com/nine").unwrap();
    assert_eq!(events.len(), 2);
    assert_eq!(origin.post_calls.len(), 0);
}

#[test]
fn fan_scrape_rejects_repeated_sequence_key() {
    // The second occurrence finds its cache entry already consumed.
    let page = fan_page("[\"k1\",\"k1\"]");
    let mut origin = FakeOrigin::new(&page, vec![]);
    let r = scrape_fan(&mut origin, "https://bandcamp.com/nine");
    assert!(matches!(r, Err(CrawlError::Extract(_))));
}

#[test]
fn fan_scrape_rejects_missing_sequence_key() {
    let page = fan_page("[\"k1\",\"k3\"]");
    let mut origin = FakeOrigin::new(&page, vec![]);
    let r = scrape_fan(&mut origin, "https://bandcamp.com/nine");
    assert!(matches!(r, Err(CrawlError::Extract(_))));
}

#[test]
fn extract_release_page_reads_optional_discography() {
    let with = release_page("a", false, "Sat, 01 Feb 2020 03:00:00 +0000");
    let p = crawlcore::extract::extract_release_page(&with).unwrap();
    assert_eq!(p.discography.as_deref(), Some("/music"));
    let without = with.replace("link-and-title", "other-class");
    let p2 = crawlcore::extract::extract_release_page(&without).unwrap();
    assert!(p2.discography.is_none());
}

//! Unit tests for the plain value logic: decimal parsing, JSON body
//! serialization, URL normalization, date and duration parsing, and the
//! small data-model helpers.

use crawlcore::data::{Album, AlbumId, Artist, ArtistId, EntityData, Url, User, UserId};
use crawlcore::node_state::OriginForceMode;

#[test]
fn parse_u64_accepts_plain_decimals() {
    assert_eq!(crawlcore::text::parse_u64("0"), Some(0));
    assert_eq!(crawlcore::text::parse_u64("123"), Some(123));
    assert_eq!(crawlcore::text::parse_u64("+7"), Some(7));
    assert_eq!(crawlcore::text::parse_u64("18446744073709551615"), Some(u64::MAX));
}

#[test]
fn parse_u64_rejects_junk_and_overflow() {
    assert_eq!(crawlcore::text::parse_u64(""), None);
    assert_eq!(crawlcore::text::parse_u64("+"), None);
    assert_eq!(crawlcore::text::parse_u64("12a"), None);
    assert_eq!(crawlcore::text::parse_u64("-5"), None);
    assert_eq!(crawlcore::text::parse_u64("18446744073709551616"), None);
}

#[test]
fn collectors_body_is_sorted_and_escaped() {
    let body = crawlcore::json::collectors_body("a", 42, "to\"k\\1");
    assert_eq!(
        body,
        "{\"count\":80,\"token\":\"to\\\"k\\\\1\",\"tralbum_id\":42,\"tralbum_type\":\"a\"}"
    );
    // The built body is what serde_json itself would serialize.
    let reparsed: serde_json::Value = serde_json::from_str(&body).unwrap();
    assert_eq!(serde_json::to_string(&reparsed).unwrap(), body);
}

#[test]
fn collectors_body_escapes_control_characters() {
    let body = crawlcore::json::collectors_body("a", 1, "x\ny\u{1}z\tq");
    assert_eq!(
        body,
        "{\"count\":80,\"token\":\"x\\ny\\u0001z\\tq\",\"tralbum_id\":1,\"tralbum_type\":\"a\"}"
    );
    let reparsed: serde_json::Value = serde_json::from_str(&body).unwrap();
    assert_eq!(reparsed.get("token").unwrap().as_str().unwrap(), "x\ny\u{1}z\tq");
}

#[test]
fn collections_body_is_sorted() {
    let body = crawlcore::json::collections_body(9, "t0");
    assert_eq!(body, "{\"count\":20,\"fan_id\":9,\"older_than_token\":\"t0\"}");
}

#[test]
fn json_model_reads_fields() {
    let v = crawlcore::json::parse_json("{\"id\": 7, \"name\": \"x\", \"ok\": true}").unwrap();
    assert_eq!(v.get("id").unwrap().as_u64(), Some(7));
    assert_eq!(v.get("name").unwrap().as_str().unwrap().as_str(), "x");
    assert_eq!(v.get("ok").unwrap().as_bool(), Some(true));
    assert!(v.get("missing").is_none());
    assert!(crawlcore::json::parse_json("{not json").is_none());
}

#[test]
fn url_join_and_parse_normalize() {
    assert_eq!(
        crawlcore::urls::url_join("https://x.bandcamp.com/album/a", "/music").unwrap(),
        "https://x.bandcamp.com/music"
    );
    assert_eq!(crawlcore::urls::url_parse("https://x.com").unwrap(), "https://x.com/");
    assert!(crawlcore::urls::url_parse("not a url").is_none());
}

#[test]
fn rfc2822_dates_parse_to_day_granularity() {
    let (ts, date) = crawlcore::dates::parse_rfc2822("Sat, 01 Feb 2020 03:00:00 +0000").unwrap();
    assert_eq!(ts, 1580526000);
    assert_eq!((date.year, date.month, date.day), (2020, 2, 1));
    let (epoch_ts, _) = crawlcore::dates::parse_rfc2822("Thu, 01 Jan 1970 00:00:00 +0000").unwrap();
    assert_eq!(epoch_ts, 0);
    assert!(crawlcore::dates::parse_rfc2822("not a date").is_none());
}

#[test]
fn durations_parse_with_broken_prefix_rewritten() {
    assert_eq!(crawlcore::dates::parse_iso_duration("PT1M30S"), Some(90));
    assert_eq!(crawlcore::extract::parse_broken_duration("P00H02M03S"), Some(123));
    assert_eq!(crawlcore::extract::parse_broken_duration("PT45S"), Some(45));
    assert_eq!(crawlcore::extract::parse_broken_duration("bogus"), None);
}

#[test]
fn required_delay_covers_the_interval() {
    assert_eq!(crawlcore::client::required_delay(300, 1000), 700);
    assert_eq!(crawlcore::client::required_delay(1000, 1000), 0);
    assert_eq!(crawlcore::client::required_delay(4000, 1000), 0);
}

#[test]
fn entity_data_url_reports_any_kind() {
    let album = EntityData::Album(Album { id: AlbumId(1), url: "https://a".to_owned() });
    let artist = EntityData::Artist(Artist {
        id: ArtistId(2),
        url: Url("https://b".to_owned()),
    });
    let user = EntityData::User(User { id: UserId(3), url: Url("https://c".to_owned()) });
    assert_eq!(album.url(), "https://a");
    assert_eq!(artist.url(), "https://b");
    assert_eq!(user.url(), "https://c");
}

#[test]
fn origin_force_mode_cycles() {
    let mut mode = OriginForceMode::Unit;
    mode.go_to_next();
    assert!(matches!(mode, OriginForceMode::Square));
    mode.go_to_next();
    assert!(matches!(mode, OriginForceMode::Cube));
    mode.go_to_next();
    assert!(matches!(mode, OriginForceMode::Unit));
}

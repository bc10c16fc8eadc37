//! Pure extraction logic: turns fetched page text and API response bodies
//! into the typed page data the scrape protocols work on. Every function here
//! is exact: its contract says precisely which inputs extract and to what.
//! A missing element or attribute, or malformed embedded data, fails the
//! extraction as a whole.

use vstd::prelude::*;

use crate::error::{extract_err, CrawlError};
use crate::html::{attr_of, count_of, nth_attr_of, nth_sub_attr_of, nth_sub_text_of, text_of};
use crate::json::{json_of, lookup_field, spec_get, JsonValue};

verus! {

// ---------------------------------------------------------------------------
// Typed page data, with view types for the contracts.
// ---------------------------------------------------------------------------
/// The page-properties blob of a release page: a short type code and the
/// release's numeric id.
#[derive(Debug)]
pub struct PageProperties {
    pub item_type: String,
    pub item_id: u64,
}

pub struct PagePropertiesV {
    pub item_type: Seq<char>,
    pub item_id: u64,
}

impl View for PageProperties {
    type V = PagePropertiesV;

    open spec fn view(&self) -> PagePropertiesV {
        PagePropertiesV { item_type: self.item_type@, item_id: self.item_id }
    }
}

/// The band blob of a page: the owning artist's id and name.
#[derive(Debug)]
pub struct BandData {
    pub id: u64,
    pub name: String,
}

pub struct BandDataV {
    pub id: u64,
    pub name: Seq<char>,
}

impl View for BandData {
    type V = BandDataV;

    open spec fn view(&self) -> BandDataV {
        BandDataV { id: self.id, name: self.name@ }
    }
}

/// A fan referenced by a review: id and username.
#[derive(Debug)]
pub struct ReviewRef {
    pub fan_id: u64,
    pub username: String,
}

pub struct ReviewRefV {
    pub fan_id: u64,
    pub username: Seq<char>,
}

impl View for ReviewRef {
    type V = ReviewRefV;

    open spec fn view(&self) -> ReviewRefV {
        ReviewRefV { fan_id: self.fan_id, username: self.username@ }
    }
}

/// A fan referenced by a thumb entry: id, username, and the pagination token
/// this entry carries.
#[derive(Debug)]
pub struct FanRef {
    pub fan_id: u64,
    pub username: String,
    pub token: String,
}

pub struct FanRefV {
    pub fan_id: u64,
    pub username: Seq<char>,
    pub token: Seq<char>,
}

impl View for FanRef {
    type V = FanRefV;

    open spec fn view(&self) -> FanRefV {
        FanRefV { fan_id: self.fan_id, username: self.username@, token: self.token@ }
    }
}

/// The collectors blob of a release page: reviews, the embedded thumb
/// entries, and whether more thumb pages are available.
#[derive(Debug)]
pub struct CollectorsData {
    pub more_thumbs_available: bool,
    pub reviews: Vec<ReviewRef>,
    pub thumbs: Vec<FanRef>,
}

pub struct CollectorsDataV {
    pub more_thumbs_available: bool,
    pub reviews: Seq<ReviewRefV>,
    pub thumbs: Seq<FanRefV>,
}

impl View for CollectorsData {
    type V = CollectorsDataV;

    open spec fn view(&self) -> CollectorsDataV {
        CollectorsDataV {
            more_thumbs_available: self.more_thumbs_available,
            reviews: self.reviews@.map_values(|r: ReviewRef| r@),
            thumbs: self.thumbs@.map_values(|f: FanRef| f@),
        }
    }
}

/// One page of the paginated collectors API: more thumb entries and whether
/// another page follows.
#[derive(Debug)]
pub struct ThumbsPage {
    pub results: Vec<FanRef>,
    pub more_available: bool,
}

pub struct ThumbsPageV {
    pub results: Seq<FanRefV>,
    pub more_available: bool,
}

impl View for ThumbsPage {
    type V = ThumbsPageV;

    open spec fn view(&self) -> ThumbsPageV {
        ThumbsPageV {
            results: self.results@.map_values(|f: FanRef| f@),
            more_available: self.more_available,
        }
    }
}

/// One release in a fan's collection: its id and page address.
#[derive(Debug)]
pub struct CollectionItem {
    pub item_id: u64,
    pub item_url: String,
}

pub struct CollectionItemV {
    pub item_id: u64,
    pub item_url: Seq<char>,
}

impl View for CollectionItem {
    type V = CollectionItemV;

    open spec fn view(&self) -> CollectionItemV {
        CollectionItemV { item_id: self.item_id, item_url: self.item_url@ }
    }
}

/// The identity block of a fan page: id, display name and username.
#[derive(Debug)]
pub struct FanData {
    pub fan_id: u64,
    pub name: String,
    pub username: String,
}

pub struct FanDataV {
    pub fan_id: u64,
    pub name: Seq<char>,
    pub username: Seq<char>,
}

impl View for FanData {
    type V = FanDataV;

    open spec fn view(&self) -> FanDataV {
        FanDataV { fan_id: self.fan_id, name: self.name@, username: self.username@ }
    }
}

// ---------------------------------------------------------------------------
// Field access over the JSON model.
// ---------------------------------------------------------------------------
/// The string field of an object named `key`, where there is one.
pub open spec fn field_str(j: JsonValue, key: Seq<char>) -> Option<String> {
    match spec_get(&j, key) {
        Some(JsonValue::Str(s)) => Some(s),
        _ => None,
    }
}

/// The unsigned numeric field of an object named `key`, where there is one.
pub open spec fn field_u64(j: JsonValue, key: Seq<char>) -> Option<u64> {
    match spec_get(&j, key) {
        Some(JsonValue::Num(n)) => n,
        _ => None,
    }
}

/// The boolean field of an object named `key`, where there is one.
pub open spec fn field_bool(j: JsonValue, key: Seq<char>) -> Option<bool> {
    match spec_get(&j, key) {
        Some(JsonValue::Bool(b)) => Some(b),
        _ => None,
    }
}

/// The array field of an object named `key`, where there is one.
pub open spec fn field_arr(j: JsonValue, key: Seq<char>) -> Option<Seq<JsonValue>> {
    match spec_get(&j, key) {
        Some(JsonValue::Arr(a)) => Some(a@),
        _ => None,
    }
}

fn get_str_field<'a>(j: &'a JsonValue, key: &str) -> (r: Option<&'a String>)
    ensures
        match r {
            Some(s) => field_str(*j, key@) == Some(*s),
            None => field_str(*j, key@) is None,
        },
{
    match j.get(key) {
        Some(v) => match v {
            JsonValue::Str(s) => Some(s),
            _ => None,
        },
        None => None,
    }
}

fn get_u64_field(j: &JsonValue, key: &str) -> (r: Option<u64>)
    ensures
        r == field_u64(*j, key@),
{
    match j.get(key) {
        Some(v) => match v {
            JsonValue::Num(n) => *n,
            _ => None,
        },
        None => None,
    }
}

fn get_bool_field(j: &JsonValue, key: &str) -> (r: Option<bool>)
    ensures
        r == field_bool(*j, key@),
{
    match j.get(key) {
        Some(v) => match v {
            JsonValue::Bool(b) => Some(*b),
            _ => None,
        },
        None => None,
    }
}

fn get_arr_field<'a>(j: &'a JsonValue, key: &str) -> (r: Option<&'a Vec<JsonValue>>)
    ensures
        match r {
            Some(a) => field_arr(*j, key@) == Some(a@),
            None => field_arr(*j, key@) is None,
        },
{
    match j.get(key) {
        Some(v) => match v {
            JsonValue::Arr(a) => Some(a),
            _ => None,
        },
        None => None,
    }
}

// ---------------------------------------------------------------------------
// Element-wise extraction over JSON arrays.
// ---------------------------------------------------------------------------
/// Extracts every element of a JSON array, failing if any element fails.
pub open spec fn map_list<T>(s: Seq<JsonValue>, f: spec_fn(JsonValue) -> Option<T>) -> Option<
    Seq<T>,
>
    decreases s.len(),
{
    if s.len() == 0 {
        Some(Seq::<T>::empty())
    } else {
        match (map_list(s.drop_last(), f), f(s.last())) {
            (Some(pre), Some(x)) => Some(pre.push(x)),
            _ => None,
        }
    }
}

proof fn lemma_map_list_step<T>(s: Seq<JsonValue>, f: spec_fn(JsonValue) -> Option<T>, i: int)
    requires
        0 <= i < s.len(),
    ensures
        map_list(s.take(i + 1), f) == match (map_list(s.take(i), f), f(s[i])) {
            (Some(pre), Some(x)) => Some(pre.push(x)),
            _ => None::<Seq<T>>,
        },
{
    assert(s.take(i + 1).drop_last() =~= s.take(i));
    assert(s.take(i + 1).last() == s[i]);
}

proof fn lemma_map_list_none<T>(s: Seq<JsonValue>, f: spec_fn(JsonValue) -> Option<T>, i: int)
    requires
        0 <= i <= s.len(),
        map_list(s.take(i), f) is None,
    ensures
        map_list(s, f) is None,
    decreases s.len() - i,
{
    if i == s.len() {
        assert(s.take(i) =~= s);
    } else {
        lemma_map_list_step(s, f, i);
        lemma_map_list_none(s, f, i + 1);
    }
}

/// A review entry read as the fan it references.
pub open spec fn spec_review_ref(v: JsonValue) -> Option<ReviewRefV> {
    match (field_u64(v, "fan_id"@), field_str(v, "username"@)) {
        (Some(id), Some(name)) => Some(ReviewRefV { fan_id: id, username: name@ }),
        _ => None,
    }
}

/// The element reader for review entries.
pub open spec fn review_ref_fn() -> spec_fn(JsonValue) -> Option<ReviewRefV> {
    |v: JsonValue| spec_review_ref(v)
}

fn parse_review_ref(v: &JsonValue) -> (r: Option<ReviewRef>)
    ensures
        match r {
            Some(x) => spec_review_ref(*v) == Some(x@),
            None => spec_review_ref(*v) is None,
        },
{
    let fan_id = get_u64_field(v, "fan_id")?;
    let username = get_str_field(v, "username")?;
    Some(ReviewRef { fan_id, username: username.clone() })
}

/// A thumb entry read as the fan it references, with its pagination token.
pub open spec fn spec_fan_ref(v: JsonValue) -> Option<FanRefV> {
    match (field_u64(v, "fan_id"@), field_str(v, "username"@), field_str(v, "token"@)) {
        (Some(id), Some(name), Some(token)) => Some(
            FanRefV { fan_id: id, username: name@, token: token@ },
        ),
        _ => None,
    }
}

/// The element reader for thumb entries.
pub open spec fn fan_ref_fn() -> spec_fn(JsonValue) -> Option<FanRefV> {
    |v: JsonValue| spec_fan_ref(v)
}

fn parse_fan_ref(v: &JsonValue) -> (r: Option<FanRef>)
    ensures
        match r {
            Some(x) => spec_fan_ref(*v) == Some(x@),
            None => spec_fan_ref(*v) is None,
        },
{
    let fan_id = get_u64_field(v, "fan_id")?;
    let username = get_str_field(v, "username")?;
    let token = get_str_field(v, "token")?;
    Some(FanRef { fan_id, username: username.clone(), token: token.clone() })
}

fn parse_review_refs(arr: &Vec<JsonValue>) -> (r: Option<Vec<ReviewRef>>)
    ensures
        match r {
            Some(v) => map_list(arr@, review_ref_fn()) == Some(
                v@.map_values(|x: ReviewRef| x@),
            ),
            None => map_list(arr@, review_ref_fn()) is None,
        },
{
    let mut out: Vec<ReviewRef> = Vec::new();
    let n = arr.len();
    let mut i: usize = 0;
    assert(arr@.take(0) =~= Seq::<JsonValue>::empty());
    assert(out@.map_values(|x: ReviewRef| x@) =~= Seq::<ReviewRefV>::empty());
    while i < n
        invariant
            0 <= i <= n,
            n == arr@.len(),
            map_list(arr@.take(i as int), review_ref_fn()) == Some(
                out@.map_values(|x: ReviewRef| x@),
            ),
        decreases n - i,
    {
        proof {
            lemma_map_list_step(arr@, review_ref_fn(), i as int);
        }
        let ghost pre = out@;
        match parse_review_ref(&arr[i]) {
            Some(x) => {
                out.push(x);
                assert(out@.map_values(|x: ReviewRef| x@) =~= pre.map_values(
                    |x: ReviewRef| x@,
                ).push(out@.last()@));
            },
            None => {
                proof {
                    lemma_map_list_none(arr@, review_ref_fn(), i + 1);
                }
                return None;
            },
        }
        i = i + 1;
    }
    assert(arr@.take(n as int) =~= arr@);
    Some(out)
}

fn parse_fan_refs(arr: &Vec<JsonValue>) -> (r: Option<Vec<FanRef>>)
    ensures
        match r {
            Some(v) => map_list(arr@, fan_ref_fn()) == Some(v@.map_values(|x: FanRef| x@)),
            None => map_list(arr@, fan_ref_fn()) is None,
        },
{
    let mut out: Vec<FanRef> = Vec::new();
    let n = arr.len();
    let mut i: usize = 0;
    assert(arr@.take(0) =~= Seq::<JsonValue>::empty());
    assert(out@.map_values(|x: FanRef| x@) =~= Seq::<FanRefV>::empty());
    while i < n
        invariant
            0 <= i <= n,
            n == arr@.len(),
            map_list(arr@.take(i as int), fan_ref_fn()) == Some(
                out@.map_values(|x: FanRef| x@),
            ),
        decreases n - i,
    {
        proof {
            lemma_map_list_step(arr@, fan_ref_fn(), i as int);
        }
        let ghost pre = out@;
        match parse_fan_ref(&arr[i]) {
            Some(x) => {
                out.push(x);
                assert(out@.map_values(|x: FanRef| x@) =~= pre.map_values(|x: FanRef| x@).push(
                    out@.last()@,
                ));
            },
            None => {
                proof {
                    lemma_map_list_none(arr@, fan_ref_fn(), i + 1);
                }
                return None;
            },
        }
        i = i + 1;
    }
    assert(arr@.take(n as int) =~= arr@);
    Some(out)
}

// ---------------------------------------------------------------------------
// The collectors blob and the paginated collectors API.
// ---------------------------------------------------------------------------
/// The collectors blob read from its JSON document.
pub open spec fn spec_collectors_json(j: JsonValue) -> Option<CollectorsDataV> {
    match (field_bool(j, "more_thumbs_available"@), field_arr(j, "reviews"@), field_arr(
        j,
        "thumbs"@,
    )) {
        (Some(more), Some(reviews), Some(thumbs)) => {
            match (map_list(reviews, review_ref_fn()), map_list(thumbs, fan_ref_fn())) {
                (Some(rs), Some(ts)) => Some(
                    CollectorsDataV { more_thumbs_available: more, reviews: rs, thumbs: ts },
                ),
                _ => None,
            }
        },
        _ => None,
    }
}

fn parse_collectors_json(j: &JsonValue) -> (r: Option<CollectorsData>)
    ensures
        match r {
            Some(c) => spec_collectors_json(*j) == Some(c@),
            None => spec_collectors_json(*j) is None,
        },
{
    let more = get_bool_field(j, "more_thumbs_available")?;
    let reviews_arr = get_arr_field(j, "reviews")?;
    let thumbs_arr = get_arr_field(j, "thumbs")?;
    let reviews = parse_review_refs(reviews_arr)?;
    let thumbs = parse_fan_refs(thumbs_arr)?;
    Some(CollectorsData { more_thumbs_available: more, reviews, thumbs })
}

/// One collectors API response body read as a page of thumb entries.
pub open spec fn spec_thumbs_page(body: Seq<char>) -> Option<ThumbsPageV> {
    match json_of(body) {
        Some(j) => match (field_arr(j, "results"@), field_bool(j, "more_available"@)) {
            (Some(results), Some(more)) => match map_list(results, fan_ref_fn()) {
                Some(rs) => Some(ThumbsPageV { results: rs, more_available: more }),
                None => None,
            },
            _ => None,
        },
        None => None,
    }
}

/// Parses one collectors API response body: the fans of this page and
/// whether another page follows.
pub fn parse_thumbs(body: &str) -> (r: Result<ThumbsPage, CrawlError>)
    ensures
        match r {
            Ok(p) => spec_thumbs_page(body@) == Some(p@),
            Err(e) => spec_thumbs_page(body@) is None && e is Extract,
        },
{
    let j = match crate::json::parse_json(body) {
        Some(j) => j,
        None => {
            return Err(extract_err("malformed collectors response"));
        },
    };
    let results_arr = match get_arr_field(&j, "results") {
        Some(a) => a,
        None => {
            return Err(extract_err("collectors response: missing results"));
        },
    };
    let more = match get_bool_field(&j, "more_available") {
        Some(b) => b,
        None => {
            return Err(extract_err("collectors response: missing more_available"));
        },
    };
    let results = match parse_fan_refs(results_arr) {
        Some(v) => v,
        None => {
            return Err(extract_err("collectors response: malformed fan entry"));
        },
    };
    Ok(ThumbsPage { results, more_available: more })
}

// ---------------------------------------------------------------------------
// Durations in the nonstandard page encoding.
// ---------------------------------------------------------------------------
/// A duration in the pages' nonstandard encoding: a malformed zero-hours
/// prefix is rewritten into the standard time-designator form before the
/// generic ISO 8601 reading applies.
pub open spec fn broken_duration_spec(s: Seq<char>) -> Option<i64> {
    if s.len() >= 4 && s.take(4) == "P00H"@ {
        crate::dates::iso_duration_secs_of("PT"@ + s.skip(4))
    } else {
        crate::dates::iso_duration_secs_of(s)
    }
}

/// Parses a duration in the pages' nonstandard encoding, normalizing the
/// malformed zero-hours prefix form first.
pub fn parse_broken_duration(s: &str) -> (r: Option<i64>)
    ensures
        r == broken_duration_spec(s@),
{
    let n = s.unicode_len();
    if crate::text::has_prefix(s, "P00H") {
        proof {
            reveal_strlit("P00H");
        }
        let mut t = String::from_str("PT");
        let rest = s.substring_char(4, n);
        t.append(rest);
        assert(t@ =~= "PT"@ + s@.skip(4));
        crate::dates::parse_iso_duration(t.as_str())
    } else {
        proof {
            reveal_strlit("P00H");
        }
        crate::dates::parse_iso_duration(s)
    }
}

// ---------------------------------------------------------------------------
// The structured-data block of a release page.
// ---------------------------------------------------------------------------
/// The track list of a release's structured data: each track's duration in
/// whole seconds, and the declared number of tracks.
#[derive(Debug)]
pub struct TrackList {
    pub durations: Vec<i64>,
    pub count: u32,
}

pub struct TrackListV {
    pub durations: Seq<i64>,
    pub count: u32,
}

impl View for TrackList {
    type V = TrackListV;

    open spec fn view(&self) -> TrackListV {
        TrackListV { durations: self.durations@, count: self.count }
    }
}

/// The structured-data block of a release page: title, album artist, the
/// optional track list, and the optional whole duration.
#[derive(Debug)]
pub struct ReleaseLd {
    pub title: String,
    pub artist: String,
    pub tracks: Option<TrackList>,
    pub duration_secs: Option<i64>,
}

pub struct ReleaseLdV {
    pub title: Seq<char>,
    pub artist: Seq<char>,
    pub tracks: Option<TrackListV>,
    pub duration_secs: Option<i64>,
}

impl View for ReleaseLd {
    type V = ReleaseLdV;

    open spec fn view(&self) -> ReleaseLdV {
        ReleaseLdV {
            title: self.title@,
            artist: self.artist@,
            tracks: match &self.tracks {
                Some(t) => Some(t@),
                None => None,
            },
            duration_secs: self.duration_secs,
        }
    }
}

/// One track-list element read as its duration in whole seconds.
pub open spec fn spec_track_duration(v: JsonValue) -> Option<i64> {
    match spec_get(&v, "item"@) {
        Some(item) => match field_str(item, "duration"@) {
            Some(d) => broken_duration_spec(d@),
            None => None,
        },
        None => None,
    }
}

/// The element reader for track-list elements.
pub open spec fn track_duration_fn() -> spec_fn(JsonValue) -> Option<i64> {
    |v: JsonValue| spec_track_duration(v)
}

fn parse_track_duration(v: &JsonValue) -> (r: Option<i64>)
    ensures
        r == spec_track_duration(*v),
{
    let item = v.get("item")?;
    let d = get_str_field(item, "duration")?;
    parse_broken_duration(d.as_str())
}

fn parse_track_durations(arr: &Vec<JsonValue>) -> (r: Option<Vec<i64>>)
    ensures
        match r {
            Some(v) => map_list(arr@, track_duration_fn()) == Some(v@),
            None => map_list(arr@, track_duration_fn()) is None,
        },
{
    let mut out: Vec<i64> = Vec::new();
    let n = arr.len();
    let mut i: usize = 0;
    assert(arr@.take(0) =~= Seq::<JsonValue>::empty());
    while i < n
        invariant
            0 <= i <= n,
            n == arr@.len(),
            map_list(arr@.take(i as int), track_duration_fn()) == Some(out@),
        decreases n - i,
    {
        proof {
            lemma_map_list_step(arr@, track_duration_fn(), i as int);
        }
        match parse_track_duration(&arr[i]) {
            Some(d) => {
                out.push(d);
            },
            None => {
                proof {
                    lemma_map_list_none(arr@, track_duration_fn(), i + 1);
                }
                return None;
            },
        }
        i = i + 1;
    }
    assert(arr@.take(n as int) =~= arr@);
    Some(out)
}

/// The track list read from its structured-data value.
pub open spec fn spec_track_list(t: JsonValue) -> Option<TrackListV> {
    match (field_arr(t, "itemListElement"@), field_u64(t, "numberOfItems"@)) {
        (Some(elems), Some(count)) => {
            if count <= u32::MAX {
                match map_list(elems, track_duration_fn()) {
                    Some(ds) => Some(TrackListV { durations: ds, count: count as u32 }),
                    None => None,
                }
            } else {
                None
            }
        },
        _ => None,
    }
}

fn parse_track_list(t: &JsonValue) -> (r: Option<TrackList>)
    ensures
        match r {
            Some(tl) => spec_track_list(*t) == Some(tl@),
            None => spec_track_list(*t) is None,
        },
{
    let elems = get_arr_field(t, "itemListElement")?;
    let count = get_u64_field(t, "numberOfItems")?;
    if count > u32::MAX as u64 {
        return None;
    }
    let durations = parse_track_durations(elems)?;
    Some(TrackList { durations, count: count as u32 })
}

/// The structured-data block read from its JSON document.
pub open spec fn spec_ld_json(j: JsonValue) -> Option<ReleaseLdV> {
    match (field_str(j, "name"@), spec_get(&j, "byArtist"@)) {
        (Some(title), Some(by_artist)) => match field_str(by_artist, "name"@) {
            Some(artist) => {
                let tracks = match spec_get(&j, "track"@) {
                    None => Some(None),
                    Some(JsonValue::Null) => Some(None),
                    Some(t) => match spec_track_list(t) {
                        Some(tl) => Some(Some(tl)),
                        None => None,
                    },
                };
                let dur = match spec_get(&j, "duration"@) {
                    None => Some(None),
                    Some(JsonValue::Null) => Some(None),
                    Some(JsonValue::Str(s)) => match broken_duration_spec(s@) {
                        Some(d) => Some(Some(d)),
                        None => None,
                    },
                    Some(_) => None,
                };
                match (tracks, dur) {
                    (Some(ts), Some(d)) => Some(
                        ReleaseLdV { title: title@, artist: artist@, tracks: ts, duration_secs: d },
                    ),
                    _ => None,
                }
            },
            None => None,
        },
        _ => None,
    }
}

fn parse_ld_json(j: &JsonValue) -> (r: Option<ReleaseLd>)
    ensures
        match r {
            Some(ld) => spec_ld_json(*j) == Some(ld@),
            None => spec_ld_json(*j) is None,
        },
{
    let title = get_str_field(j, "name")?;
    let by_artist = j.get("byArtist")?;
    let artist = get_str_field(by_artist, "name")?;
    let tracks: Option<TrackList> = match j.get("track") {
        None => None,
        Some(t) => match t {
            JsonValue::Null => None,
            _ => Some(parse_track_list(t)?),
        },
    };
    let duration_secs: Option<i64> = match j.get("duration") {
        None => None,
        Some(d) => match d {
            JsonValue::Null => None,
            JsonValue::Str(s) => Some(parse_broken_duration(s.as_str())?),
            _ => {
                return None;
            },
        },
    };
    Some(ReleaseLd { title: title.clone(), artist: artist.clone(), tracks, duration_secs })
}

// ---------------------------------------------------------------------------
// The release and publish dates of a release page.
// ---------------------------------------------------------------------------
/// The dates block of a release page: the optional release timestamp and the
/// required publish timestamp, each with its day-granularity date.
#[derive(Copy, Clone, Debug)]
pub struct TralbumDates {
    pub release: Option<(i64, crate::data::Date)>,
    pub publish: (i64, crate::data::Date),
}

/// The dates block read from its JSON document. A missing release date is
/// merely absent; a present one must parse.
pub open spec fn spec_tralbum_json(j: JsonValue) -> Option<TralbumDates> {
    match spec_get(&j, "current"@) {
        Some(cur) => {
            let rel = match spec_get(&cur, "release_date"@) {
                None => Some(None),
                Some(JsonValue::Str(s)) => match crate::dates::rfc2822_of(s@) {
                    Some(x) => Some(Some(x)),
                    None => None,
                },
                Some(_) => None,
            };
            let publish = match spec_get(&cur, "publish_date"@) {
                Some(JsonValue::Str(s)) => crate::dates::rfc2822_of(s@),
                _ => None,
            };
            match (rel, publish) {
                (Some(r), Some(p)) => Some(TralbumDates { release: r, publish: p }),
                _ => None,
            }
        },
        None => None,
    }
}

fn parse_tralbum_json(j: &JsonValue) -> (r: Option<TralbumDates>)
    ensures
        r == spec_tralbum_json(*j),
{
    let cur = j.get("current")?;
    let release: Option<(i64, crate::data::Date)> = match cur.get("release_date") {
        None => None,
        Some(v) => match v {
            JsonValue::Str(s) => Some(crate::dates::parse_rfc2822(s.as_str())?),
            _ => {
                return None;
            },
        },
    };
    let publish = match cur.get("publish_date") {
        Some(v) => match v {
            JsonValue::Str(s) => crate::dates::parse_rfc2822(s.as_str())?,
            _ => {
                return None;
            },
        },
        None => {
            return None;
        },
    };
    Some(TralbumDates { release, publish })
}

// ---------------------------------------------------------------------------
// The paginated collection API of a fan page.
// ---------------------------------------------------------------------------
/// One page of the paginated collection API: more collection items, the next
/// continuation token, and whether another page follows.
#[derive(Debug)]
pub struct CollectionsPage {
    pub more_available: bool,
    pub last_token: String,
    pub items: Vec<CollectionItem>,
}

pub struct CollectionsPageV {
    pub more_available: bool,
    pub last_token: Seq<char>,
    pub items: Seq<CollectionItemV>,
}

impl View for CollectionsPage {
    type V = CollectionsPageV;

    open spec fn view(&self) -> CollectionsPageV {
        CollectionsPageV {
            more_available: self.more_available,
            last_token: self.last_token@,
            items: self.items@.map_values(|x: CollectionItem| x@),
        }
    }
}

/// One collection entry read as the release it references.
pub open spec fn spec_collection_item(v: JsonValue) -> Option<CollectionItemV> {
    match (field_u64(v, "item_id"@), field_str(v, "item_url"@)) {
        (Some(id), Some(url)) => Some(CollectionItemV { item_id: id, item_url: url@ }),
        _ => None,
    }
}

/// The element reader for collection entries.
pub open spec fn collection_item_fn() -> spec_fn(JsonValue) -> Option<CollectionItemV> {
    |v: JsonValue| spec_collection_item(v)
}

fn parse_collection_item(v: &JsonValue) -> (r: Option<CollectionItem>)
    ensures
        match r {
            Some(x) => spec_collection_item(*v) == Some(x@),
            None => spec_collection_item(*v) is None,
        },
{
    let item_id = get_u64_field(v, "item_id")?;
    let item_url = get_str_field(v, "item_url")?;
    Some(CollectionItem { item_id, item_url: item_url.clone() })
}

fn parse_collection_items(arr: &Vec<JsonValue>) -> (r: Option<Vec<CollectionItem>>)
    ensures
        match r {
            Some(v) => map_list(arr@, collection_item_fn()) == Some(
                v@.map_values(|x: CollectionItem| x@),
            ),
            None => map_list(arr@, collection_item_fn()) is None,
        },
{
    let mut out: Vec<CollectionItem> = Vec::new();
    let n = arr.len();
    let mut i: usize = 0;
    assert(arr@.take(0) =~= Seq::<JsonValue>::empty());
    assert(out@.map_values(|x: CollectionItem| x@) =~= Seq::<CollectionItemV>::empty());
    while i < n
        invariant
            0 <= i <= n,
            n == arr@.len(),
            map_list(arr@.take(i as int), collection_item_fn()) == Some(
                out@.map_values(|x: CollectionItem| x@),
            ),
        decreases n - i,
    {
        proof {
            lemma_map_list_step(arr@, collection_item_fn(), i as int);
        }
        let ghost pre = out@;
        match parse_collection_item(&arr[i]) {
            Some(x) => {
                out.push(x);
                assert(out@.map_values(|x: CollectionItem| x@) =~= pre.map_values(
                    |x: CollectionItem| x@,
                ).push(out@.last()@));
            },
            None => {
                proof {
                    lemma_map_list_none(arr@, collection_item_fn(), i + 1);
                }
                return None;
            },
        }
        i = i + 1;
    }
    assert(arr@.take(n as int) =~= arr@);
    Some(out)
}

/// One collection API response body read as a page of collection items.
pub open spec fn spec_collections_page(body: Seq<char>) -> Option<CollectionsPageV> {
    match json_of(body) {
        Some(j) => match (field_bool(j, "more_available"@), field_str(j, "last_token"@), field_arr(
            j,
            "items"@,
        )) {
            (Some(more), Some(token), Some(items)) => match map_list(items, collection_item_fn()) {
                Some(xs) => Some(
                    CollectionsPageV { more_available: more, last_token: token@, items: xs },
                ),
                None => None,
            },
            _ => None,
        },
        None => None,
    }
}

/// Parses one collection API response body: this page's items, the next
/// continuation token, and whether another page follows.
pub fn parse_collections(body: &str) -> (r: Result<CollectionsPage, CrawlError>)
    ensures
        match r {
            Ok(p) => spec_collections_page(body@) == Some(p@),
            Err(e) => spec_collections_page(body@) is None && e is Extract,
        },
{
    let j = match crate::json::parse_json(body) {
        Some(j) => j,
        None => {
            return Err(extract_err("malformed collection response"));
        },
    };
    let more = match get_bool_field(&j, "more_available") {
        Some(b) => b,
        None => {
            return Err(extract_err("collection response: missing more_available"));
        },
    };
    let token = match get_str_field(&j, "last_token") {
        Some(t) => t.clone(),
        None => {
            return Err(extract_err("collection response: missing last_token"));
        },
    };
    let items_arr = match get_arr_field(&j, "items") {
        Some(a) => a,
        None => {
            return Err(extract_err("collection response: missing items"));
        },
    };
    let items = match parse_collection_items(items_arr) {
        Some(v) => v,
        None => {
            return Err(extract_err("collection response: malformed item"));
        },
    };
    Ok(CollectionsPage { more_available: more, last_token: token, items })
}

// ---------------------------------------------------------------------------
// The fan page and its content-addressed collection map.
// ---------------------------------------------------------------------------
/// Extracts every field value of a JSON object, keeping the keys and failing
/// if any value fails.
pub open spec fn map_pairs<T>(
    s: Seq<(String, JsonValue)>,
    f: spec_fn(JsonValue) -> Option<T>,
) -> Option<Seq<(Seq<char>, T)>>
    decreases s.len(),
{
    if s.len() == 0 {
        Some(Seq::<(Seq<char>, T)>::empty())
    } else {
        match (map_pairs(s.drop_last(), f), f(s.last().1)) {
            (Some(pre), Some(x)) => Some(pre.push((s.last().0@, x))),
            _ => None,
        }
    }
}

proof fn lemma_map_pairs_step<T>(
    s: Seq<(String, JsonValue)>,
    f: spec_fn(JsonValue) -> Option<T>,
    i: int,
)
    requires
        0 <= i < s.len(),
    ensures
        map_pairs(s.take(i + 1), f) == match (map_pairs(s.take(i), f), f(s[i].1)) {
            (Some(pre), Some(x)) => Some(pre.push((s[i].0@, x))),
            _ => None::<Seq<(Seq<char>, T)>>,
        },
{
    assert(s.take(i + 1).drop_last() =~= s.take(i));
    assert(s.take(i + 1).last() == s[i]);
}

proof fn lemma_map_pairs_none<T>(
    s: Seq<(String, JsonValue)>,
    f: spec_fn(JsonValue) -> Option<T>,
    i: int,
)
    requires
        0 <= i <= s.len(),
        map_pairs(s.take(i), f) is None,
    ensures
        map_pairs(s, f) is None,
    decreases s.len() - i,
{
    if i == s.len() {
        assert(s.take(i) =~= s);
    } else {
        lemma_map_pairs_step(s, f, i);
        lemma_map_pairs_none(s, f, i + 1);
    }
}

fn parse_collection_map(fields: &Vec<(String, JsonValue)>) -> (r: Option<
    Vec<(String, CollectionItem)>,
>)
    ensures
        match r {
            Some(v) => map_pairs(fields@, collection_item_fn()) == Some(
                v@.map_values(|p: (String, CollectionItem)| (p.0@, p.1@)),
            ),
            None => map_pairs(fields@, collection_item_fn()) is None,
        },
{
    let mut out: Vec<(String, CollectionItem)> = Vec::new();
    let n = fields.len();
    let mut i: usize = 0;
    assert(fields@.take(0) =~= Seq::<(String, JsonValue)>::empty());
    assert(out@.map_values(|p: (String, CollectionItem)| (p.0@, p.1@)) =~= Seq::<
        (Seq<char>, CollectionItemV),
    >::empty());
    while i < n
        invariant
            0 <= i <= n,
            n == fields@.len(),
            map_pairs(fields@.take(i as int), collection_item_fn()) == Some(
                out@.map_values(|p: (String, CollectionItem)| (p.0@, p.1@)),
            ),
        decreases n - i,
    {
        proof {
            lemma_map_pairs_step(fields@, collection_item_fn(), i as int);
        }
        let ghost pre = out@;
        match parse_collection_item(&fields[i].1) {
            Some(x) => {
                out.push((fields[i].0.clone(), x));
                assert(out@.map_values(|p: (String, CollectionItem)| (p.0@, p.1@)) =~= pre
                    .map_values(|p: (String, CollectionItem)| (p.0@, p.1@)).push(
                    (out@.last().0@, out@.last().1@),
                ));
            },
            None => {
                proof {
                    lemma_map_pairs_none(fields@, collection_item_fn(), i + 1);
                }
                return None;
            },
        }
        i = i + 1;
    }
    assert(fields@.take(n as int) =~= fields@);
    Some(out)
}

/// The element reader for plain string entries.
pub open spec fn str_entry_fn() -> spec_fn(JsonValue) -> Option<Seq<char>> {
    |v: JsonValue| crate::json::spec_as_str(&v)
}

fn parse_str_list(arr: &Vec<JsonValue>) -> (r: Option<Vec<String>>)
    ensures
        match r {
            Some(v) => map_list(arr@, str_entry_fn()) == Some(v@.map_values(|s: String| s@)),
            None => map_list(arr@, str_entry_fn()) is None,
        },
{
    let mut out: Vec<String> = Vec::new();
    let n = arr.len();
    let mut i: usize = 0;
    assert(arr@.take(0) =~= Seq::<JsonValue>::empty());
    assert(out@.map_values(|s: String| s@) =~= Seq::<Seq<char>>::empty());
    while i < n
        invariant
            0 <= i <= n,
            n == arr@.len(),
            map_list(arr@.take(i as int), str_entry_fn()) == Some(
                out@.map_values(|s: String| s@),
            ),
        decreases n - i,
    {
        proof {
            lemma_map_list_step(arr@, str_entry_fn(), i as int);
        }
        let ghost pre = out@;
        match arr[i].as_str() {
            Some(s) => {
                out.push(s.clone());
                assert(out@.map_values(|s: String| s@) =~= pre.map_values(|s: String| s@).push(
                    out@.last()@,
                ));
            },
            None => {
                proof {
                    lemma_map_list_none(arr@, str_entry_fn(), i + 1);
                }
                return None;
            },
        }
        i = i + 1;
    }
    assert(arr@.take(n as int) =~= arr@);
    Some(out)
}

/// A whole fan page: the fan's identity, the declared collection size, the
/// continuation token, and the embedded collection as a key sequence plus a
/// content-addressed map.
#[derive(Debug)]
pub struct FanPage {
    pub fan_data: FanData,
    pub collection_count: u64,
    pub last_token: String,
    pub sequence: Vec<String>,
    pub collection: Vec<(String, CollectionItem)>,
}

pub struct FanPageV {
    pub fan_data: FanDataV,
    pub collection_count: u64,
    pub last_token: Seq<char>,
    pub sequence: Seq<Seq<char>>,
    pub collection: Seq<(Seq<char>, CollectionItemV)>,
}

impl View for FanPage {
    type V = FanPageV;

    open spec fn view(&self) -> FanPageV {
        FanPageV {
            fan_data: self.fan_data@,
            collection_count: self.collection_count,
            last_token: self.last_token@,
            sequence: self.sequence@.map_values(|s: String| s@),
            collection: self.collection@.map_values(|p: (String, CollectionItem)| (p.0@, p.1@)),
        }
    }
}

/// The fan identity block read from its JSON value.
pub open spec fn spec_fan_data(j: JsonValue) -> Option<FanDataV> {
    match (field_u64(j, "fan_id"@), field_str(j, "name"@), field_str(j, "username"@)) {
        (Some(id), Some(name), Some(username)) => Some(
            FanDataV { fan_id: id, name: name@, username: username@ },
        ),
        _ => None,
    }
}

fn parse_fan_data(j: &JsonValue) -> (r: Option<FanData>)
    ensures
        match r {
            Some(x) => spec_fan_data(*j) == Some(x@),
            None => spec_fan_data(*j) is None,
        },
{
    let fan_id = get_u64_field(j, "fan_id")?;
    let name = get_str_field(j, "name")?;
    let username = get_str_field(j, "username")?;
    Some(FanData { fan_id, name: name.clone(), username: username.clone() })
}

/// The fan page read from its embedded JSON document.
pub open spec fn spec_fan_page_json(j: JsonValue) -> Option<FanPageV> {
    match (spec_get(&j, "fan_data"@), field_u64(j, "collection_count"@), spec_get(
        &j,
        "collection_data"@,
    ), spec_get(&j, "item_cache"@)) {
        (Some(fd), Some(count), Some(cd), Some(ic)) => {
            match (spec_fan_data(fd), field_str(cd, "last_token"@), field_arr(cd, "sequence"@)) {
                (Some(fan_data), Some(token), Some(seq_arr)) => {
                    match (map_list(seq_arr, str_entry_fn()), spec_get(&ic, "collection"@)) {
                        (Some(sequence), Some(JsonValue::Obj(fields))) => {
                            match map_pairs(fields@, collection_item_fn()) {
                                Some(coll) => Some(
                                    FanPageV {
                                        fan_data,
                                        collection_count: count,
                                        last_token: token@,
                                        sequence,
                                        collection: coll,
                                    },
                                ),
                                None => None,
                            }
                        },
                        _ => None,
                    }
                },
                _ => None,
            }
        },
        _ => None,
    }
}

/// The fan page read from its page text.
pub open spec fn spec_fan_page(page: Seq<char>) -> Option<FanPageV> {
    match attr_of(page, "#pagedata"@, "data-blob"@) {
        Some(blob) => match json_of(blob) {
            Some(j) => spec_fan_page_json(j),
            None => None,
        },
        None => None,
    }
}

/// Extracts a fan page from its page text.
pub fn extract_fan_page(page: &str) -> (r: Result<FanPage, CrawlError>)
    ensures
        match r {
            Ok(p) => spec_fan_page(page@) == Some(p@),
            Err(e) => spec_fan_page(page@) is None && e is Extract,
        },
{
    let blob = match crate::html::select_attr(page, "#pagedata", "data-blob") {
        Some(b) => b,
        None => {
            return Err(extract_err("fan page: missing data-blob"));
        },
    };
    let j = match crate::json::parse_json(blob.as_str()) {
        Some(j) => j,
        None => {
            return Err(extract_err("fan page: malformed data-blob"));
        },
    };
    let fd = match j.get("fan_data") {
        Some(v) => v,
        None => {
            return Err(extract_err("fan page: missing fan_data"));
        },
    };
    let fan_data = match parse_fan_data(fd) {
        Some(x) => x,
        None => {
            return Err(extract_err("fan page: malformed fan_data"));
        },
    };
    let count = match get_u64_field(&j, "collection_count") {
        Some(c) => c,
        None => {
            return Err(extract_err("fan page: missing collection_count"));
        },
    };
    let cd = match j.get("collection_data") {
        Some(v) => v,
        None => {
            return Err(extract_err("fan page: missing collection_data"));
        },
    };
    let token = match get_str_field(cd, "last_token") {
        Some(t) => t.clone(),
        None => {
            return Err(extract_err("fan page: missing last_token"));
        },
    };
    let seq_arr = match get_arr_field(cd, "sequence") {
        Some(a) => a,
        None => {
            return Err(extract_err("fan page: missing sequence"));
        },
    };
    let sequence = match parse_str_list(seq_arr) {
        Some(v) => v,
        None => {
            return Err(extract_err("fan page: malformed sequence"));
        },
    };
    let ic = match j.get("item_cache") {
        Some(v) => v,
        None => {
            return Err(extract_err("fan page: missing item_cache"));
        },
    };
    let fields = match ic.get("collection") {
        Some(v) => match v {
            JsonValue::Obj(f) => f,
            _ => {
                return Err(extract_err("fan page: malformed collection cache"));
            },
        },
        None => {
            return Err(extract_err("fan page: missing collection cache"));
        },
    };
    let collection = match parse_collection_map(fields) {
        Some(v) => v,
        None => {
            return Err(extract_err("fan page: malformed collection entry"));
        },
    };
    Ok(FanPage { fan_data, collection_count: count, last_token: token, sequence, collection })
}

// ---------------------------------------------------------------------------
// Resolving the key sequence against the content-addressed map.
// ---------------------------------------------------------------------------
/// Removes the first entry with the given key from the map, yielding the
/// entry's item and the rest of the map.
pub open spec fn remove_key(coll: Seq<(Seq<char>, CollectionItemV)>, key: Seq<char>) -> Option<
    (CollectionItemV, Seq<(Seq<char>, CollectionItemV)>),
>
    decreases coll.len(),
{
    if coll.len() == 0 {
        None
    } else if coll[0].0 == key {
        Some((coll[0].1, coll.drop_first()))
    } else {
        match remove_key(coll.drop_first(), key) {
            Some((item, rest)) => Some((item, seq![coll[0]] + rest)),
            None => None,
        }
    }
}

/// Resolves each key of the sequence against the map in turn, removing the
/// entry it hits: a key that misses, including the second of two equal keys,
/// fails the resolution.
pub open spec fn resolve_collection_spec(
    keys: Seq<Seq<char>>,
    coll: Seq<(Seq<char>, CollectionItemV)>,
) -> Option<Seq<CollectionItemV>>
    decreases keys.len(),
{
    if keys.len() == 0 {
        Some(Seq::<CollectionItemV>::empty())
    } else {
        match remove_key(coll, keys[0]) {
            Some((item, rest)) => match resolve_collection_spec(keys.drop_first(), rest) {
                Some(items) => Some(seq![item] + items),
                None => None,
            },
            None => None,
        }
    }
}

proof fn lemma_remove_key_at(coll: Seq<(Seq<char>, CollectionItemV)>, key: Seq<char>, idx: int)
    requires
        0 <= idx < coll.len(),
        coll[idx].0 == key,
        forall|j: int| 0 <= j < idx ==> coll[j].0 != key,
    ensures
        remove_key(coll, key) == Some((coll[idx].1, coll.remove(idx))),
    decreases idx,
{
    if idx == 0 {
        assert(coll.drop_first() =~= coll.remove(0));
    } else {
        assert(forall|j: int| 0 <= j < idx - 1 ==> coll.drop_first()[j].0 != key);
        lemma_remove_key_at(coll.drop_first(), key, idx - 1);
        assert(seq![coll[0]] + coll.drop_first().remove(idx - 1) =~= coll.remove(idx));
    }
}

proof fn lemma_remove_key_none(coll: Seq<(Seq<char>, CollectionItemV)>, key: Seq<char>)
    requires
        forall|j: int| 0 <= j < coll.len() ==> coll[j].0 != key,
    ensures
        remove_key(coll, key) is None,
    decreases coll.len(),
{
    if coll.len() > 0 {
        lemma_remove_key_none(coll.drop_first(), key);
    }
}

fn find_key(coll: &Vec<(String, CollectionItem)>, key: &str) -> (r: Option<usize>)
    ensures
        match r {
            Some(idx) => idx < coll@.len() && coll@[idx as int].0@ == key@ && (forall|j: int|
                0 <= j < idx ==> coll@[j].0@ != key@),
            None => forall|j: int| 0 <= j < coll@.len() ==> coll@[j].0@ != key@,
        },
{
    let m = coll.len();
    let mut k: usize = 0;
    while k < m
        invariant
            0 <= k <= m,
            m == coll@.len(),
            forall|j: int| 0 <= j < k ==> coll@[j].0@ != key@,
        decreases m - k,
    {
        if crate::text::str_eq(coll[k].0.as_str(), key) {
            return Some(k);
        }
        k = k + 1;
    }
    None
}

/// Reconstructs a fan's embedded collection from the key sequence and the
/// content-addressed map, exactly as `resolve_collection_spec` says: each key
/// consumes its map entry, and a key that misses fails the whole page.
pub fn resolve_collection(sequence: &Vec<String>, collection: Vec<(String, CollectionItem)>) -> (r:
    Result<Vec<CollectionItem>, CrawlError>)
    ensures
        match r {
            Ok(items) => resolve_collection_spec(
                sequence@.map_values(|s: String| s@),
                collection@.map_values(|p: (String, CollectionItem)| (p.0@, p.1@)),
            ) == Some(items@.map_values(|x: CollectionItem| x@)),
            Err(e) => resolve_collection_spec(
                sequence@.map_values(|s: String| s@),
                collection@.map_values(|p: (String, CollectionItem)| (p.0@, p.1@)),
            ) is None && e is Extract,
        },
{
    let ghost keys0 = sequence@.map_values(|s: String| s@);
    let ghost coll0 = collection@.map_values(|p: (String, CollectionItem)| (p.0@, p.1@));
    let mut coll = collection;
    let mut out: Vec<CollectionItem> = Vec::new();
    let n = sequence.len();
    let mut i: usize = 0;
    assert(keys0.skip(0) =~= keys0);
    while i < n
        invariant
            0 <= i <= n,
            n == sequence@.len(),
            keys0 == sequence@.map_values(|s: String| s@),
            coll0 == collection@.map_values(|p: (String, CollectionItem)| (p.0@, p.1@)),
            match resolve_collection_spec(
                keys0.skip(i as int),
                coll@.map_values(|p: (String, CollectionItem)| (p.0@, p.1@)),
            ) {
                Some(rest) => resolve_collection_spec(keys0, coll0) == Some(
                    out@.map_values(|x: CollectionItem| x@) + rest,
                ),
                None => resolve_collection_spec(keys0, coll0) is None,
            },
        decreases n - i,
    {
        let ghost collv = coll@.map_values(|p: (String, CollectionItem)| (p.0@, p.1@));
        let key = &sequence[i];
        assert(keys0.skip(i as int)[0] == keys0[i as int]);
        assert(keys0.skip(i as int).drop_first() =~= keys0.skip(i + 1));
        let found = find_key(&coll, key.as_str());
        proof {
            assert(forall|j: int|
                0 <= j < coll@.len() ==> collv[j].0 == #[trigger] coll@[j].0@);
        }
        match found {
            Some(idx) => {
                proof {
                    lemma_remove_key_at(collv, key@, idx as int);
                }
                let ghost pre_out = out@;
                let ghost pre_coll = coll@;
                let entry = coll.remove(idx);
                out.push(entry.1);
                proof {
                    assert(coll@.map_values(|p: (String, CollectionItem)| (p.0@, p.1@)) =~= collv
                        .remove(idx as int));
                    assert(out@.map_values(|x: CollectionItem| x@) =~= pre_out.map_values(
                        |x: CollectionItem| x@,
                    ).push(entry.1@));
                    assert(forall|rest: Seq<CollectionItemV>|
                        (pre_out.map_values(|x: CollectionItem| x@).push(entry.1@) + rest) =~= (
                        pre_out.map_values(|x: CollectionItem| x@) + (seq![entry.1@] + rest)));
                }
            },
            None => {
                proof {
                    lemma_remove_key_none(collv, key@);
                }
                return Err(extract_err("cache missing collection item"));
            },
        }
        i = i + 1;
    }
    proof {
        assert(keys0.skip(n as int) =~= Seq::<Seq<char>>::empty());
        assert(out@.map_values(|x: CollectionItem| x@) + Seq::<CollectionItemV>::empty() =~= out@
            .map_values(|x: CollectionItem| x@));
    }
    Ok(out)
}

// ---------------------------------------------------------------------------
// The release page.
// ---------------------------------------------------------------------------
/// The page-properties blob read from its JSON document.
pub open spec fn spec_properties_json(j: JsonValue) -> Option<PagePropertiesV> {
    match (field_str(j, "item_type"@), field_u64(j, "item_id"@)) {
        (Some(t), Some(i)) => Some(PagePropertiesV { item_type: t@, item_id: i }),
        _ => None,
    }
}

fn parse_properties_json(j: &JsonValue) -> (r: Option<PageProperties>)
    ensures
        match r {
            Some(p) => spec_properties_json(*j) == Some(p@),
            None => spec_properties_json(*j) is None,
        },
{
    let t = get_str_field(j, "item_type")?;
    let i = get_u64_field(j, "item_id")?;
    Some(PageProperties { item_type: t.clone(), item_id: i })
}

/// The band blob read from its JSON document.
pub open spec fn spec_band_json(j: JsonValue) -> Option<BandDataV> {
    match (field_u64(j, "id"@), field_str(j, "name"@)) {
        (Some(id), Some(name)) => Some(BandDataV { id, name: name@ }),
        _ => None,
    }
}

fn parse_band_json(j: &JsonValue) -> (r: Option<BandData>)
    ensures
        match r {
            Some(b) => spec_band_json(*j) == Some(b@),
            None => spec_band_json(*j) is None,
        },
{
    let id = get_u64_field(j, "id")?;
    let name = get_str_field(j, "name")?;
    Some(BandData { id, name: name.clone() })
}

/// A whole release page: properties, the owning band, the dates block, the
/// collectors blob, the optional discography reference, and the
/// structured-data block.
#[derive(Debug)]
pub struct ReleasePage {
    pub properties: PageProperties,
    pub band: BandData,
    pub dates: TralbumDates,
    pub collectors: CollectorsData,
    pub discography: Option<String>,
    pub ld: ReleaseLd,
}

pub struct ReleasePageV {
    pub properties: PagePropertiesV,
    pub band: BandDataV,
    pub dates: TralbumDates,
    pub collectors: CollectorsDataV,
    pub discography: Option<Seq<char>>,
    pub ld: ReleaseLdV,
}

impl View for ReleasePage {
    type V = ReleasePageV;

    open spec fn view(&self) -> ReleasePageV {
        ReleasePageV {
            properties: self.properties@,
            band: self.band@,
            dates: self.dates,
            collectors: self.collectors@,
            discography: match &self.discography {
                Some(d) => Some(d@),
                None => None,
            },
            ld: self.ld@,
        }
    }
}

/// The release page read from its page text. The discography reference is
/// optional; everything else must be present and well-formed.
pub open spec fn spec_release_page(page: Seq<char>) -> Option<ReleasePageV> {
    match (attr_of(page, "meta[name=bc-page-properties]"@, "content"@), attr_of(
        page,
        "[data-band]"@,
        "data-band"@,
    ), attr_of(page, "[data-tralbum]"@, "data-tralbum"@), attr_of(
        page,
        "#collectors-data"@,
        "data-blob"@,
    ), text_of(page, "script[type=\"application/ld+json\"]"@)) {
        (Some(props_s), Some(band_s), Some(tralbum_s), Some(coll_s), Some(ld_s)) => {
            match (json_of(props_s), json_of(band_s), json_of(tralbum_s), json_of(coll_s), json_of(
                ld_s,
            )) {
                (Some(pj), Some(bj), Some(tj), Some(cj), Some(lj)) => {
                    match (spec_properties_json(pj), spec_band_json(bj), spec_tralbum_json(tj),
                    spec_collectors_json(cj), spec_ld_json(lj)) {
                        (Some(properties), Some(band), Some(dates), Some(collectors), Some(ld)) => {
                            Some(
                                ReleasePageV {
                                    properties,
                                    band,
                                    dates,
                                    collectors,
                                    discography: attr_of(
                                        page,
                                        "#discography a.link-and-title"@,
                                        "href"@,
                                    ),
                                    ld,
                                },
                            )
                        },
                        _ => None,
                    }
                },
                _ => None,
            }
        },
        _ => None,
    }
}

/// Extracts a release page from its page text.
pub fn extract_release_page(page: &str) -> (r: Result<ReleasePage, CrawlError>)
    ensures
        match r {
            Ok(p) => spec_release_page(page@) == Some(p@),
            Err(e) => spec_release_page(page@) is None && e is Extract,
        },
{
    let props_s = match crate::html::select_attr(page, "meta[name=bc-page-properties]", "content") {
        Some(s) => s,
        None => {
            return Err(extract_err("release page: missing page properties"));
        },
    };
    let band_s = match crate::html::select_attr(page, "[data-band]", "data-band") {
        Some(s) => s,
        None => {
            return Err(extract_err("release page: missing data-band"));
        },
    };
    let tralbum_s = match crate::html::select_attr(page, "[data-tralbum]", "data-tralbum") {
        Some(s) => s,
        None => {
            return Err(extract_err("release page: missing data-tralbum"));
        },
    };
    let coll_s = match crate::html::select_attr(page, "#collectors-data", "data-blob") {
        Some(s) => s,
        None => {
            return Err(extract_err("release page: missing collectors data"));
        },
    };
    let ld_s = match crate::html::select_text(page, "script[type=\"application/ld+json\"]") {
        Some(s) => s,
        None => {
            return Err(extract_err("release page: missing structured data"));
        },
    };
    let pj = match crate::json::parse_json(props_s.as_str()) {
        Some(j) => j,
        None => {
            return Err(extract_err("release page: malformed page properties"));
        },
    };
    let bj = match crate::json::parse_json(band_s.as_str()) {
        Some(j) => j,
        None => {
            return Err(extract_err("release page: malformed data-band"));
        },
    };
    let tj = match crate::json::parse_json(tralbum_s.as_str()) {
        Some(j) => j,
        None => {
            return Err(extract_err("release page: malformed data-tralbum"));
        },
    };
    let cj = match crate::json::parse_json(coll_s.as_str()) {
        Some(j) => j,
        None => {
            return Err(extract_err("release page: malformed collectors data"));
        },
    };
    let lj = match crate::json::parse_json(ld_s.as_str()) {
        Some(j) => j,
        None => {
            return Err(extract_err("release page: malformed structured data"));
        },
    };
    let properties = match parse_properties_json(&pj) {
        Some(p) => p,
        None => {
            return Err(extract_err("release page: malformed page properties"));
        },
    };
    let band = match parse_band_json(&bj) {
        Some(b) => b,
        None => {
            return Err(extract_err("release page: malformed data-band"));
        },
    };
    let dates = match parse_tralbum_json(&tj) {
        Some(d) => d,
        None => {
            return Err(extract_err("release page: malformed dates"));
        },
    };
    let collectors = match parse_collectors_json(&cj) {
        Some(c) => c,
        None => {
            return Err(extract_err("release page: malformed collectors data"));
        },
    };
    let ld = match parse_ld_json(&lj) {
        Some(l) => l,
        None => {
            return Err(extract_err("release page: malformed structured data"));
        },
    };
    let discography = crate::html::select_attr(page, "#discography a.link-and-title", "href");
    Ok(ReleasePage { properties, band, dates, collectors, discography, ld })
}

// ---------------------------------------------------------------------------
// The artist page and its release grid.
// ---------------------------------------------------------------------------
/// One entry of an artist page's release grid.
#[derive(Debug)]
pub struct GridItem {
    pub item_id: u64,
    pub href: String,
    pub title: String,
    pub ty: String,
}

pub struct GridItemV {
    pub item_id: u64,
    pub href: Seq<char>,
    pub title: Seq<char>,
    pub ty: Seq<char>,
}

impl View for GridItem {
    type V = GridItemV;

    open spec fn view(&self) -> GridItemV {
        GridItemV { item_id: self.item_id, href: self.href@, title: self.title@, ty: self.ty@ }
    }
}

/// One entry of an artist page's client-rendered release list.
#[derive(Debug)]
pub struct ClientItem {
    pub art_id: u64,
    pub band_id: u64,
    pub id: u64,
    pub page_url: String,
    pub title: String,
    pub ty: String,
}

pub struct ClientItemV {
    pub art_id: u64,
    pub band_id: u64,
    pub id: u64,
    pub page_url: Seq<char>,
    pub title: Seq<char>,
    pub ty: Seq<char>,
}

impl View for ClientItem {
    type V = ClientItemV;

    open spec fn view(&self) -> ClientItemV {
        ClientItemV {
            art_id: self.art_id,
            band_id: self.band_id,
            id: self.id,
            page_url: self.page_url@,
            title: self.title@,
            ty: self.ty@,
        }
    }
}

/// The first position of `c` in `s` at or past `i`.
pub open spec fn find_from(s: Seq<char>, c: char, i: int) -> Option<int>
    recommends
        0 <= i <= s.len(),
    decreases s.len() - i,
        when 0 <= i <= s.len()
{
    if i >= s.len() {
        None
    } else if s[i] == c {
        Some(i)
    } else {
        find_from(s, c, i + 1)
    }
}

/// A grid entry's type-and-id attribute split at its first dash.
pub open spec fn split_dash_spec(s: Seq<char>) -> Option<(Seq<char>, Seq<char>)> {
    match find_from(s, '-', 0) {
        Some(i) => Some((s.take(i), s.skip(i + 1))),
        None => None,
    }
}

fn find_dash(s: &str) -> (r: Option<usize>)
    ensures
        match r {
            Some(i) => i < s@.len() && find_from(s@, '-', 0) == Some(i as int),
            None => find_from(s@, '-', 0) is None,
        },
{
    let n = s.unicode_len();
    let mut i: usize = 0;
    while i < n
        invariant
            0 <= i <= n,
            n == s@.len(),
            find_from(s@, '-', 0) == find_from(s@, '-', i as int),
        decreases n - i,
    {
        if s.get_char(i) == '-' {
            return Some(i);
        }
        i = i + 1;
    }
    None
}

/// The `i`-th entry of the release grid read from the page text.
pub open spec fn spec_grid_item(page: Seq<char>, i: int) -> Option<GridItemV> {
    match nth_attr_of(page, "li.music-grid-item"@, i, "data-item-id"@) {
        Some(id_attr) => match split_dash_spec(id_attr) {
            Some((ty, digits)) => match crate::text::parse_u64_spec(digits) {
                Some(id) => match (nth_sub_text_of(page, "li.music-grid-item"@, i, ".title"@),
                nth_sub_attr_of(page, "li.music-grid-item"@, i, "a"@, "href"@)) {
                    (Some(title), Some(href)) => Some(GridItemV { item_id: id, href, title, ty }),
                    _ => None,
                },
                None => None,
            },
            None => None,
        },
        None => None,
    }
}

/// The first `n` entries of the release grid read from the page text.
pub open spec fn spec_grid_items(page: Seq<char>, n: int) -> Option<Seq<GridItemV>>
    decreases n,
{
    if n <= 0 {
        Some(Seq::<GridItemV>::empty())
    } else {
        match (spec_grid_items(page, n - 1), spec_grid_item(page, n - 1)) {
            (Some(pre), Some(g)) => Some(pre.push(g)),
            _ => None,
        }
    }
}

fn parse_grid_item(page: &str, i: usize) -> (r: Result<GridItem, CrawlError>)
    ensures
        match r {
            Ok(g) => spec_grid_item(page@, i as int) == Some(g@),
            Err(e) => spec_grid_item(page@, i as int) is None && e is Extract,
        },
{
    let id_attr = match crate::html::select_nth_attr(page, "li.music-grid-item", i, "data-item-id")
        {
        Some(s) => s,
        None => {
            return Err(extract_err("artist page: missing data-item-id"));
        },
    };
    let dash = match find_dash(id_attr.as_str()) {
        Some(d) => d,
        None => {
            return Err(extract_err("artist page: failed to parse grid id"));
        },
    };
    let n = id_attr.as_str().unicode_len();
    let ty = id_attr.as_str().substring_char(0, dash).to_owned();
    let digits = id_attr.as_str().substring_char(dash + 1, n);
    let item_id = match crate::text::parse_u64(digits) {
        Some(v) => v,
        None => {
            return Err(extract_err("artist page: malformed grid id"));
        },
    };
    let title = match crate::html::select_nth_sub_text(page, "li.music-grid-item", i, ".title") {
        Some(s) => s,
        None => {
            return Err(extract_err("artist page: missing grid title"));
        },
    };
    let href = match crate::html::select_nth_sub_attr(page, "li.music-grid-item", i, "a", "href") {
        Some(s) => s,
        None => {
            return Err(extract_err("artist page: missing grid href"));
        },
    };
    Ok(GridItem { item_id, href, title, ty })
}

/// One client-rendered entry read as the release it references.
pub open spec fn spec_client_item(v: JsonValue) -> Option<ClientItemV> {
    match (field_u64(v, "art_id"@), field_u64(v, "band_id"@), field_u64(v, "id"@), field_str(
        v,
        "page_url"@,
    ), field_str(v, "title"@), field_str(v, "type"@)) {
        (Some(art_id), Some(band_id), Some(id), Some(page_url), Some(title), Some(ty)) => Some(
            ClientItemV {
                art_id,
                band_id,
                id,
                page_url: page_url@,
                title: title@,
                ty: ty@,
            },
        ),
        _ => None,
    }
}

/// The element reader for client-rendered entries.
pub open spec fn client_item_fn() -> spec_fn(JsonValue) -> Option<ClientItemV> {
    |v: JsonValue| spec_client_item(v)
}

fn parse_client_item(v: &JsonValue) -> (r: Option<ClientItem>)
    ensures
        match r {
            Some(x) => spec_client_item(*v) == Some(x@),
            None => spec_client_item(*v) is None,
        },
{
    let art_id = get_u64_field(v, "art_id")?;
    let band_id = get_u64_field(v, "band_id")?;
    let id = get_u64_field(v, "id")?;
    let page_url = get_str_field(v, "page_url")?;
    let title = get_str_field(v, "title")?;
    let ty = get_str_field(v, "type")?;
    Some(
        ClientItem {
            art_id,
            band_id,
            id,
            page_url: page_url.clone(),
            title: title.clone(),
            ty: ty.clone(),
        },
    )
}

fn parse_client_items(arr: &Vec<JsonValue>) -> (r: Option<Vec<ClientItem>>)
    ensures
        match r {
            Some(v) => map_list(arr@, client_item_fn()) == Some(
                v@.map_values(|x: ClientItem| x@),
            ),
            None => map_list(arr@, client_item_fn()) is None,
        },
{
    let mut out: Vec<ClientItem> = Vec::new();
    let n = arr.len();
    let mut i: usize = 0;
    assert(arr@.take(0) =~= Seq::<JsonValue>::empty());
    assert(out@.map_values(|x: ClientItem| x@) =~= Seq::<ClientItemV>::empty());
    while i < n
        invariant
            0 <= i <= n,
            n == arr@.len(),
            map_list(arr@.take(i as int), client_item_fn()) == Some(
                out@.map_values(|x: ClientItem| x@),
            ),
        decreases n - i,
    {
        proof {
            lemma_map_list_step(arr@, client_item_fn(), i as int);
        }
        let ghost pre = out@;
        match parse_client_item(&arr[i]) {
            Some(x) => {
                out.push(x);
                assert(out@.map_values(|x: ClientItem| x@) =~= pre.map_values(
                    |x: ClientItem| x@,
                ).push(out@.last()@));
            },
            None => {
                proof {
                    lemma_map_list_none(arr@, client_item_fn(), i + 1);
                }
                return None;
            },
        }
        i = i + 1;
    }
    assert(arr@.take(n as int) =~= arr@);
    Some(out)
}

/// A whole artist page: the band, the release grid, and the optional
/// client-rendered release list.
#[derive(Debug)]
pub struct ArtistPage {
    pub band: BandData,
    pub grid_items: Vec<GridItem>,
    pub client_items: Option<Vec<ClientItem>>,
}

pub struct ArtistPageV {
    pub band: BandDataV,
    pub grid_items: Seq<GridItemV>,
    pub client_items: Option<Seq<ClientItemV>>,
}

impl View for ArtistPage {
    type V = ArtistPageV;

    open spec fn view(&self) -> ArtistPageV {
        ArtistPageV {
            band: self.band@,
            grid_items: self.grid_items@.map_values(|g: GridItem| g@),
            client_items: match &self.client_items {
                Some(v) => Some(v@.map_values(|x: ClientItem| x@)),
                None => None,
            },
        }
    }
}

/// The client-rendered release list of an artist page: the grid container
/// must exist; its list attribute may be absent, but must parse when present.
pub open spec fn spec_client_items(page: Seq<char>) -> Option<Option<Seq<ClientItemV>>> {
    match count_of(page, "#music-grid"@) {
        Some(n) => {
            if n == 0 {
                None
            } else {
                match attr_of(page, "#music-grid"@, "data-client-items"@) {
                    Some(s) => match json_of(s) {
                        Some(JsonValue::Arr(a)) => match map_list(a@, client_item_fn()) {
                            Some(items) => Some(Some(items)),
                            None => None,
                        },
                        _ => None,
                    },
                    None => Some(None),
                }
            }
        },
        None => None,
    }
}

/// The artist page read from its page text.
pub open spec fn spec_artist_page(page: Seq<char>) -> Option<ArtistPageV> {
    match attr_of(page, "[data-band]"@, "data-band"@) {
        Some(band_s) => match json_of(band_s) {
            Some(bj) => match spec_band_json(bj) {
                Some(band) => match count_of(page, "li.music-grid-item"@) {
                    Some(n) => match (spec_grid_items(page, n as int), spec_client_items(page)) {
                        (Some(grid_items), Some(client_items)) => Some(
                            ArtistPageV { band, grid_items, client_items },
                        ),
                        _ => None,
                    },
                    None => None,
                },
                None => None,
            },
            None => None,
        },
        None => None,
    }
}

/// Extracts an artist page from its page text.
pub fn extract_artist_page(page: &str) -> (r: Result<ArtistPage, CrawlError>)
    ensures
        match r {
            Ok(p) => spec_artist_page(page@) == Some(p@),
            Err(e) => spec_artist_page(page@) is None && e is Extract,
        },
{
    let band_s = match crate::html::select_attr(page, "[data-band]", "data-band") {
        Some(s) => s,
        None => {
            return Err(extract_err("artist page: missing data-band"));
        },
    };
    let bj = match crate::json::parse_json(band_s.as_str()) {
        Some(j) => j,
        None => {
            return Err(extract_err("artist page: malformed data-band"));
        },
    };
    let band = match parse_band_json(&bj) {
        Some(b) => b,
        None => {
            return Err(extract_err("artist page: malformed data-band"));
        },
    };
    let n = match crate::html::select_count(page, "li.music-grid-item") {
        Some(n) => n,
        None => {
            return Err(extract_err("artist page: bad grid selector"));
        },
    };
    let mut grid_items: Vec<GridItem> = Vec::new();
    let mut i: usize = 0;
    assert(grid_items@.map_values(|g: GridItem| g@) =~= Seq::<GridItemV>::empty());
    while i < n
        invariant
            0 <= i <= n,
            count_of(page@, "li.music-grid-item"@) == Some(n),
            spec_grid_items(page@, i as int) == Some(grid_items@.map_values(|g: GridItem| g@)),
        decreases n - i,
    {
        let ghost pre = grid_items@;
        match parse_grid_item(page, i) {
            Ok(g) => {
                grid_items.push(g);
                assert(grid_items@.map_values(|g: GridItem| g@) =~= pre.map_values(
                    |g: GridItem| g@,
                ).push(grid_items@.last()@));
            },
            Err(e) => {
                proof {
                    lemma_grid_items_none(page@, (i + 1) as int, n as int);
                }
                return Err(e);
            },
        }
        i = i + 1;
    }
    let client_items: Option<Vec<ClientItem>> = match crate::html::select_count(
        page,
        "#music-grid",
    ) {
        Some(c) => {
            if c == 0 {
                return Err(extract_err("artist page: missing element for #music-grid"));
            } else {
                match crate::html::select_attr(page, "#music-grid", "data-client-items") {
                    Some(s) => match crate::json::parse_json(s.as_str()) {
                        Some(j) => match j {
                            JsonValue::Arr(a) => match parse_client_items(&a) {
                                Some(items) => Some(items),
                                None => {
                                    return Err(
                                        extract_err("artist page: malformed client item"),
                                    );
                                },
                            },
                            _ => {
                                return Err(
                                    extract_err("artist page: malformed client items"),
                                );
                            },
                        },
                        None => {
                            return Err(extract_err("artist page: malformed client items"));
                        },
                    },
                    None => None,
                }
            }
        },
        None => {
            return Err(extract_err("artist page: bad grid selector"));
        },
    };
    Ok(ArtistPage { band, grid_items, client_items })
}

proof fn lemma_grid_items_none(page: Seq<char>, i: int, n: int)
    requires
        0 <= i <= n,
        spec_grid_items(page, i) is None,
    ensures
        spec_grid_items(page, n) is None,
    decreases n - i,
{
    if i < n {
        lemma_grid_items_none(page, i + 1, n);
    }
}

} // verus!

//! The catalog data model: entity identities (a numeric id plus a canonical
//! URL), their detail records, and the day-granularity date and
//! whole-second duration values that release details carry.

use vstd::prelude::*;

verus! {

/// A canonical page address, kept as plain text.
#[derive(Debug, Clone)]
pub struct Url(pub String);

impl View for Url {
    type V = Seq<char>;

    open spec fn view(&self) -> Seq<char> {
        self.0@
    }
}

/// The kind of catalog entity a request or a page is about.
#[derive(Copy, Clone, Debug, PartialEq, Eq, Structural)]
pub enum EntityType {
    Artist,
    Release,
    User,
}

/// Numeric identity of an artist, from page metadata.
#[derive(Copy, Clone, Debug, PartialEq, Eq, Structural)]
pub struct ArtistId(pub u64);

/// Numeric identity of a release, from page metadata.
#[derive(Copy, Clone, Debug, PartialEq, Eq, Structural)]
pub struct ReleaseId(pub u64);

/// Numeric identity of a user (a fan), from page metadata.
#[derive(Copy, Clone, Debug, PartialEq, Eq, Structural)]
pub struct UserId(pub u64);

/// Numeric identity of an album, for consumers that speak of albums rather
/// than releases.
#[derive(Copy, Clone, Debug, PartialEq, Eq, Structural)]
pub struct AlbumId(pub u64);

/// An artist entity: id plus the URL it was reached by.
#[derive(Debug)]
pub struct Artist {
    pub id: ArtistId,
    pub url: Url,
}

pub struct ArtistV {
    pub id: ArtistId,
    pub url: Seq<char>,
}

impl View for Artist {
    type V = ArtistV;

    open spec fn view(&self) -> ArtistV {
        ArtistV { id: self.id, url: self.url@ }
    }
}

impl Clone for Artist {
    /// Clones the entity, keeping id and URL.
    fn clone(&self) -> (r: Self)
        ensures
            r@ == self@,
    {
        Artist { id: self.id, url: Url(self.url.0.clone()) }
    }
}

/// A release entity: id plus the URL it was reached by.
#[derive(Debug)]
pub struct Release {
    pub id: ReleaseId,
    pub url: Url,
}

pub struct ReleaseV {
    pub id: ReleaseId,
    pub url: Seq<char>,
}

impl View for Release {
    type V = ReleaseV;

    open spec fn view(&self) -> ReleaseV {
        ReleaseV { id: self.id, url: self.url@ }
    }
}

impl Clone for Release {
    /// Clones the entity, keeping id and URL.
    fn clone(&self) -> (r: Self)
        ensures
            r@ == self@,
    {
        Release { id: self.id, url: Url(self.url.0.clone()) }
    }
}

/// A user (fan) entity: id plus the URL it was reached by.
#[derive(Debug)]
pub struct User {
    pub id: UserId,
    pub url: Url,
}

pub struct UserV {
    pub id: UserId,
    pub url: Seq<char>,
}

impl View for User {
    type V = UserV;

    open spec fn view(&self) -> UserV {
        UserV { id: self.id, url: self.url@ }
    }
}

impl Clone for User {
    /// Clones the entity, keeping id and URL.
    fn clone(&self) -> (r: Self)
        ensures
            r@ == self@,
    {
        User { id: self.id, url: Url(self.url.0.clone()) }
    }
}

/// An album entity: a release under its album name, for consumers that
/// speak of albums.
#[derive(Debug, Clone)]
pub struct Album {
    pub id: AlbumId,
    pub url: String,
}

/// A catalog entity of any kind, with its URL.
#[derive(Debug, Clone)]
pub enum EntityData {
    Album(Album),
    Artist(Artist),
    User(User),
}

impl EntityData {
    /// The URL the entity was reached by, whatever its kind.
    pub open spec fn url_spec(&self) -> Seq<char> {
        match self {
            EntityData::Album(a) => a.url@,
            EntityData::Artist(a) => a.url@,
            EntityData::User(u) => u.url@,
        }
    }

    /// Returns the URL the entity was reached by, whatever its kind.
    pub fn url(&self) -> (r: &str)
        ensures
            r@ == self.url_spec(),
    {
        match self {
            EntityData::Album(Album { url, .. }) => url.as_str(),
            EntityData::Artist(Artist { url, .. }) => url.0.as_str(),
            EntityData::User(User { url, .. }) => url.0.as_str(),
        }
    }
}

/// Details scraped for an artist.
#[derive(Debug, Clone)]
pub struct ArtistDetails {
    pub name: String,
}

pub struct ArtistDetailsV {
    pub name: Seq<char>,
}

impl View for ArtistDetails {
    type V = ArtistDetailsV;

    open spec fn view(&self) -> ArtistDetailsV {
        ArtistDetailsV { name: self.name@ }
    }
}

/// Whether a release page is a whole album or a single track.
#[derive(Copy, Clone, Debug, PartialEq, Eq, Structural)]
pub enum ReleaseType {
    Album,
    Track,
}

/// A calendar date at day granularity.
#[derive(Copy, Clone, Debug, PartialEq, Eq, Structural)]
pub struct Date {
    pub year: i32,
    pub month: u8,
    pub day: u8,
}

/// Details scraped for a release. Durations are whole seconds; the release
/// date is kept at day granularity.
#[derive(Debug, Clone)]
pub struct ReleaseDetails {
    pub ty: ReleaseType,
    pub title: String,
    /// The album artist, which may differ from the artist owning the store
    /// that released it (record labels, featured artists).
    pub artist: String,
    pub tracks: Option<u32>,
    pub length_seconds: i64,
    pub released: Date,
}

pub struct ReleaseDetailsV {
    pub ty: ReleaseType,
    pub title: Seq<char>,
    pub artist: Seq<char>,
    pub tracks: Option<u32>,
    pub length_seconds: i64,
    pub released: Date,
}

impl View for ReleaseDetails {
    type V = ReleaseDetailsV;

    open spec fn view(&self) -> ReleaseDetailsV {
        ReleaseDetailsV {
            ty: self.ty,
            title: self.title@,
            artist: self.artist@,
            tracks: self.tracks,
            length_seconds: self.length_seconds,
            released: self.released,
        }
    }
}

/// Details scraped for a user (a fan).
#[derive(Debug, Clone)]
pub struct UserDetails {
    pub name: String,
    pub username: String,
}

pub struct UserDetailsV {
    pub name: Seq<char>,
    pub username: Seq<char>,
}

impl View for UserDetails {
    type V = UserDetailsV;

    open spec fn view(&self) -> UserDetailsV {
        UserDetailsV { name: self.name@, username: self.username@ }
    }
}

} // verus!

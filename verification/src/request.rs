//! The pipeline's units of work: a request names an entity kind and a URL to
//! scrape; a response is one streamed result of processing a request, either
//! a primary entity with its details or a batch of related entities.

use vstd::prelude::*;

use crate::data::{
    Artist, ArtistDetails, ArtistDetailsV, ArtistV, EntityType, Release, ReleaseDetails,
    ReleaseDetailsV, ReleaseV, User, UserDetails, UserDetailsV, UserV,
};

verus! {

/// A unit of scrape work: an entity kind and the URL to scrape it from.
/// Equality is structural on both, which is what the dedup set goes by.
#[derive(Debug)]
pub enum Request {
    Artist { url: String },
    Release { url: String },
    User { url: String },
}

impl View for Request {
    type V = (EntityType, Seq<char>);

    open spec fn view(&self) -> (EntityType, Seq<char>) {
        match self {
            Request::Artist { url } => (EntityType::Artist, url@),
            Request::Release { url } => (EntityType::Release, url@),
            Request::User { url } => (EntityType::User, url@),
        }
    }
}

impl Clone for Request {
    /// Clones the request, keeping kind and URL.
    fn clone(&self) -> (r: Self)
        ensures
            r@ == self@,
    {
        match self {
            Request::Artist { url } => Request::Artist { url: url.clone() },
            Request::Release { url } => Request::Release { url: url.clone() },
            Request::User { url } => Request::User { url: url.clone() },
        }
    }
}

impl PartialEq for Request {
    /// Structural equality on kind and URL.
    fn eq(&self, other: &Self) -> (r: bool) {
        match (self, other) {
            (Request::Artist { url: a }, Request::Artist { url: b }) => crate::text::str_eq(
                a.as_str(),
                b.as_str(),
            ),
            (Request::Release { url: a }, Request::Release { url: b }) => crate::text::str_eq(
                a.as_str(),
                b.as_str(),
            ),
            (Request::User { url: a }, Request::User { url: b }) => crate::text::str_eq(
                a.as_str(),
                b.as_str(),
            ),
            _ => false,
        }
    }
}

impl vstd::std_specs::cmp::PartialEqSpecImpl for Request {
    open spec fn obeys_eq_spec() -> bool {
        true
    }

    open spec fn eq_spec(&self, other: &Self) -> bool {
        self@ == other@
    }
}

impl Request {
    /// The URL the request names.
    pub fn url(&self) -> (r: &str)
        ensures
            r@ == self@.1,
    {
        match self {
            Request::Artist { url } => url.as_str(),
            Request::Release { url } => url.as_str(),
            Request::User { url } => url.as_str(),
        }
    }

}

/// One streamed result of processing a request: a primary entity with its
/// details, or a batch of entities related to one already-parsed entity.
#[derive(Debug)]
pub enum Response {
    Artist(Artist, ArtistDetails),
    Release(Release, ReleaseDetails),
    User(User, UserDetails),
    Fans(Release, Vec<User>),
    ReleaseArtist(Release, Artist),
    Collection(User, Vec<Release>),
    Releases(Artist, Vec<Release>),
}

pub enum ResponseV {
    Artist(ArtistV, ArtistDetailsV),
    Release(ReleaseV, ReleaseDetailsV),
    User(UserV, UserDetailsV),
    Fans(ReleaseV, Seq<UserV>),
    ReleaseArtist(ReleaseV, ArtistV),
    Collection(UserV, Seq<ReleaseV>),
    Releases(ArtistV, Seq<ReleaseV>),
}

impl View for Response {
    type V = ResponseV;

    open spec fn view(&self) -> ResponseV {
        match self {
            Response::Artist(a, d) => ResponseV::Artist(a@, d@),
            Response::Release(r, d) => ResponseV::Release(r@, d@),
            Response::User(u, d) => ResponseV::User(u@, d@),
            Response::Fans(r, us) => ResponseV::Fans(r@, us@.map_values(|u: User| u@)),
            Response::ReleaseArtist(r, a) => ResponseV::ReleaseArtist(r@, a@),
            Response::Collection(u, rs) => ResponseV::Collection(
                u@,
                rs@.map_values(|r: Release| r@),
            ),
            Response::Releases(a, rs) => ResponseV::Releases(a@, rs@.map_values(|r: Release| r@)),
        }
    }
}

/// Whether a response carries a primary entity with its details.
pub open spec fn is_primary(r: ResponseV) -> bool {
    r is Artist || r is Release || r is User
}

/// Whether a response carries a batch of related entities.
pub open spec fn is_relationship_batch(r: ResponseV) -> bool {
    r is Fans || r is Collection || r is Releases
}

/// Whether a response names the artist owning a release.
pub open spec fn is_owning_artist(r: ResponseV) -> bool {
    r is ReleaseArtist
}

} // verus!

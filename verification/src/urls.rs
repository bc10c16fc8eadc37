//! Trusted boundary to the `url` library: validation and normalization of
//! page addresses, and resolution of page-relative references. Both are
//! functions of their text arguments alone, so their results bear names.

use vstd::prelude::*;

verus! {

/// The normalized text of a URL, where the text parses as an absolute URL.
pub uninterp spec fn parsed_url_of(s: Seq<char>) -> Option<Seq<char>>;

/// The normalized text of `rel` resolved against the absolute URL `base`.
pub uninterp spec fn joined_url_of(base: Seq<char>, rel: Seq<char>) -> Option<Seq<char>>;

/// Relies on `url::Url::parse` and `Url::to_string` for normalization.
#[verifier::external_body]
pub fn url_parse(s: &str) -> (r: Option<String>)
    ensures
        match r {
            Some(u) => parsed_url_of(s@) == Some(u@),
            None => parsed_url_of(s@) is None,
        },
{
    url::Url::parse(s).ok().map(|u| u.to_string())
}

/// Relies on `url::Url::parse`, `Url::join` and `Url::to_string`.
#[verifier::external_body]
pub fn url_join(base: &str, rel: &str) -> (r: Option<String>)
    ensures
        match r {
            Some(u) => joined_url_of(base@, rel@) == Some(u@),
            None => joined_url_of(base@, rel@) is None,
        },
{
    let b = url::Url::parse(base).ok()?;
    b.join(rel).ok().map(|u| u.to_string())
}

} // verus!

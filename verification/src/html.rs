//! Trusted boundary to the `scraper` HTML library: each function parses the
//! page text and runs one CSS-selector query over it. What a query yields is
//! a function of the page and the query alone, so each result bears a name
//! that the extraction contracts build on. A `None` result folds together an
//! unparsable selector, a missing element and a missing attribute: each is
//! the same extraction failure to the callers.

use vstd::prelude::*;

verus! {

/// The first element matching `sel`: the value of its attribute `attr`.
pub uninterp spec fn attr_of(page: Seq<char>, sel: Seq<char>, attr: Seq<char>) -> Option<Seq<char>>;

/// The first element matching `sel`: its text content, concatenated.
pub uninterp spec fn text_of(page: Seq<char>, sel: Seq<char>) -> Option<Seq<char>>;

/// How many elements of the page match `sel`; absent when `sel` cannot be
/// parsed as a selector.
pub uninterp spec fn count_of(page: Seq<char>, sel: Seq<char>) -> Option<usize>;

/// The `i`-th element matching `sel`: the value of its attribute `attr`.
pub uninterp spec fn nth_attr_of(page: Seq<char>, sel: Seq<char>, i: int, attr: Seq<char>) -> Option<
    Seq<char>,
>;

/// Within the `i`-th element matching `outer`, the first element matching
/// `inner`: the value of its attribute `attr`.
pub uninterp spec fn nth_sub_attr_of(
    page: Seq<char>,
    outer: Seq<char>,
    i: int,
    inner: Seq<char>,
    attr: Seq<char>,
) -> Option<Seq<char>>;

/// Within the `i`-th element matching `outer`, the first element matching
/// `inner`: its text content, concatenated.
pub uninterp spec fn nth_sub_text_of(
    page: Seq<char>,
    outer: Seq<char>,
    i: int,
    inner: Seq<char>,
) -> Option<Seq<char>>;

/// Relies on `scraper::Html::parse_document`, `Selector::parse`,
/// `Html::select` and `ElementRef::attr`.
#[verifier::external_body]
pub fn select_attr(page: &str, sel: &str, attr: &str) -> (r: Option<String>)
    ensures
        match r {
            Some(s) => attr_of(page@, sel@, attr@) == Some(s@),
            None => attr_of(page@, sel@, attr@) is None,
        },
{
    let doc = scraper::Html::parse_document(page);
    let s = scraper::Selector::parse(sel).ok()?;
    doc.select(&s).next()?.attr(attr).map(|a| a.to_owned())
}

/// Relies on `scraper::Html::parse_document`, `Selector::parse`,
/// `Html::select` and `ElementRef::text`.
#[verifier::external_body]
pub fn select_text(page: &str, sel: &str) -> (r: Option<String>)
    ensures
        match r {
            Some(s) => text_of(page@, sel@) == Some(s@),
            None => text_of(page@, sel@) is None,
        },
{
    let doc = scraper::Html::parse_document(page);
    let s = scraper::Selector::parse(sel).ok()?;
    Some(doc.select(&s).next()?.text().collect())
}

/// Relies on `scraper::Html::parse_document`, `Selector::parse` and
/// `Html::select`: counts the matching elements.
#[verifier::external_body]
pub fn select_count(page: &str, sel: &str) -> (r: Option<usize>)
    ensures
        r == count_of(page@, sel@),
{
    let doc = scraper::Html::parse_document(page);
    let s = scraper::Selector::parse(sel).ok()?;
    Some(doc.select(&s).count())
}

/// Relies on `scraper::Html::parse_document`, `Selector::parse`,
/// `Html::select` and `ElementRef::attr`, taking the `i`-th match.
#[verifier::external_body]
pub fn select_nth_attr(page: &str, sel: &str, i: usize, attr: &str) -> (r: Option<String>)
    ensures
        match r {
            Some(s) => nth_attr_of(page@, sel@, i as int, attr@) == Some(s@),
            None => nth_attr_of(page@, sel@, i as int, attr@) is None,
        },
{
    let doc = scraper::Html::parse_document(page);
    let s = scraper::Selector::parse(sel).ok()?;
    doc.select(&s).nth(i)?.attr(attr).map(|a| a.to_owned())
}

/// Relies on `scraper::Html::parse_document`, `Selector::parse`,
/// `Html::select`, `ElementRef::select` and `ElementRef::attr`.
#[verifier::external_body]
pub fn select_nth_sub_attr(page: &str, outer: &str, i: usize, inner: &str, attr: &str) -> (r:
    Option<String>)
    ensures
        match r {
            Some(s) => nth_sub_attr_of(page@, outer@, i as int, inner@, attr@) == Some(s@),
            None => nth_sub_attr_of(page@, outer@, i as int, inner@, attr@) is None,
        },
{
    let doc = scraper::Html::parse_document(page);
    let so = scraper::Selector::parse(outer).ok()?;
    let si = scraper::Selector::parse(inner).ok()?;
    let el = doc.select(&so).nth(i)?;
    el.select(&si).next()?.attr(attr).map(|a| a.to_owned())
}

/// Relies on `scraper::Html::parse_document`, `Selector::parse`,
/// `Html::select`, `ElementRef::select` and `ElementRef::text`.
#[verifier::external_body]
pub fn select_nth_sub_text(page: &str, outer: &str, i: usize, inner: &str) -> (r: Option<String>)
    ensures
        match r {
            Some(s) => nth_sub_text_of(page@, outer@, i as int, inner@) == Some(s@),
            None => nth_sub_text_of(page@, outer@, i as int, inner@) is None,
        },
{
    let doc = scraper::Html::parse_document(page);
    let so = scraper::Selector::parse(outer).ok()?;
    let si = scraper::Selector::parse(inner).ok()?;
    let el = doc.select(&so).nth(i)?;
    Some(el.select(&si).next()?.text().collect())
}

} // verus!

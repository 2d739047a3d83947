//! URL operations of the `url` crate, on URLs held as their serialization.
//!
//! Each function here parses its URL argument (a serialization, which parses back to the same
//! URL), makes one call, and hands back the new serialization, or `None` where the crate refuses.

use crate::text::texts;
use vstd::prelude::*;

verus! {

/// The serialization of the URL that `Url::parse` reads from a text, if it accepts it.
pub uninterp spec fn parsed_url(s: Seq<char>) -> Option<Seq<char>>;

/// The serialization of `Url::join` of a relative reference onto a URL.
pub uninterp spec fn joined_url(base: Seq<char>, rel: Seq<char>) -> Option<Seq<char>>;

/// A URL after `Url::set_username`.
pub uninterp spec fn url_with_username(u: Seq<char>, user: Seq<char>) -> Option<Seq<char>>;

/// A URL after `Url::set_password`.
pub uninterp spec fn url_with_password(u: Seq<char>, password: Seq<char>) -> Option<Seq<char>>;

/// A URL after `PathSegmentsMut::extend`, which percent-encodes each segment it appends.
pub uninterp spec fn url_with_segments(u: Seq<char>, segments: Seq<Seq<char>>) -> Option<Seq<char>>;

/// A URL after `Url::set_query`.
pub uninterp spec fn url_with_query(u: Seq<char>, query: Seq<char>) -> Option<Seq<char>>;

/// Relies on `url::Url::parse`: the URL read from a text depends on the text alone.
#[verifier::external_body]
pub(crate) fn parse_url(s: &str) -> (r: Option<String>)
    ensures
        match r {
            Some(u) => parsed_url(s@) == Some(u@),
            None => parsed_url(s@) is None,
        },
{
    url::Url::parse(s).ok().map(String::from)
}

/// Relies on `url::Url::join`.
#[verifier::external_body]
pub(crate) fn join_url(base: &str, rel: &str) -> (r: Option<String>)
    ensures
        match r {
            Some(u) => joined_url(base@, rel@) == Some(u@),
            None => joined_url(base@, rel@) is None,
        },
{
    let u = url::Url::parse(base).ok()?;
    u.join(rel).ok().map(String::from)
}

/// Relies on `url::Url::set_username`, which refuses URLs without a host.
#[verifier::external_body]
pub(crate) fn set_username(u: &str, user: &str) -> (r: Option<String>)
    ensures
        match r {
            Some(x) => url_with_username(u@, user@) == Some(x@),
            None => url_with_username(u@, user@) is None,
        },
{
    let mut x = url::Url::parse(u).ok()?;
    x.set_username(user).ok()?;
    Some(x.into())
}

/// Relies on `url::Url::set_password`, which refuses URLs without a host.
#[verifier::external_body]
pub(crate) fn set_password(u: &str, password: &str) -> (r: Option<String>)
    ensures
        match r {
            Some(x) => url_with_password(u@, password@) == Some(x@),
            None => url_with_password(u@, password@) is None,
        },
{
    let mut x = url::Url::parse(u).ok()?;
    x.set_password(Some(password)).ok()?;
    Some(x.into())
}

/// Relies on `url::Url::path_segments_mut` and `PathSegmentsMut::extend`; the first refuses a
/// URL that cannot be a base.
#[verifier::external_body]
pub(crate) fn push_segments(u: &str, segments: &Vec<String>) -> (r: Option<String>)
    ensures
        match r {
            Some(x) => url_with_segments(u@, texts(segments@)) == Some(x@),
            None => url_with_segments(u@, texts(segments@)) is None,
        },
{
    let mut x = url::Url::parse(u).ok()?;
    x.path_segments_mut().ok()?.extend(segments.iter());
    Some(x.into())
}

/// Relies on `url::Url::set_query`.
#[verifier::external_body]
pub(crate) fn set_query(u: &str, query: &str) -> (r: Option<String>)
    ensures
        match r {
            Some(x) => url_with_query(u@, query@) == Some(x@),
            None => url_with_query(u@, query@) is None,
        },
{
    let mut x = url::Url::parse(u).ok()?;
    x.set_query(Some(query));
    Some(x.into())
}

} // verus!

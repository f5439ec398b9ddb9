//! URLs, as the `url` crate parses them (reached through `reqwest`).

use vstd::prelude::*;
use reqwest::Url;
use crate::query::pairs_view;

verus! {

/// The URL type of `url`, opaque here.
#[verifier::external_type_specification]
#[verifier::external_body]
pub struct ExUrl(reqwest::Url);

/// The text of a URL: its serialization, as `Url::as_str` gives it.
pub uninterp spec fn url_text(u: Url) -> Seq<char>;

/// The serialization of the URL that `Url::parse` reads from `input`, or
/// `None` where it refuses `input`.
pub uninterp spec fn parsed_text(input: Seq<char>) -> Option<Seq<char>>;

/// The serialization of the URL that `Url::join` resolves `input` to against
/// the URL with the serialization `base`, or `None` where it refuses.
pub uninterp spec fn joined_text(base: Seq<char>, input: Seq<char>) -> Option<Seq<char>>;

/// The name and value pairs that `Url::query_pairs` reads, in order, from the
/// query of the URL with the serialization `text`.
pub uninterp spec fn query_pairs_of(text: Seq<char>) -> Seq<(Seq<char>, Seq<char>)>;

/// Calls `Url::parse`. The URL that comes back is the one whose
/// serialization `parsed_text` names; a refusal comes back as `None`.
#[verifier::external_body]
pub(crate) fn parse_url(input: &str) -> (r: Option<Url>)
    ensures
        match r {
            Some(u) => parsed_text(input@) == Some(url_text(u)),
            None => parsed_text(input@) is None,
        },
{
    Url::parse(input).ok()
}

/// Calls `Url::join`, which resolves `input` as a reference against `base`.
/// The URL that comes back is the one whose serialization `joined_text`
/// names; a refusal comes back as `None`.
#[verifier::external_body]
pub(crate) fn join_url(base: &Url, input: &str) -> (r: Option<Url>)
    ensures
        match r {
            Some(u) => joined_text(url_text(*base), input@) == Some(url_text(u)),
            None => joined_text(url_text(*base), input@) is None,
        },
{
    base.join(input).ok()
}

/// Calls `Url::query_pairs` and hands each pair out as two owned strings, in
/// the order in which the query holds them.
#[verifier::external_body]
pub(crate) fn query_pairs(u: &Url) -> (r: Vec<(String, String)>)
    ensures
        pairs_view(r@) == query_pairs_of(url_text(*u)),
{
    u.query_pairs().map(|(k, v)| (k.into_owned(), v.into_owned())).collect()
}

} // verus!

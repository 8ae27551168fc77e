//! Absolute-URL parsing and relative-reference resolution, delegated to the
//! `url` crate. The library only ever holds a URL as its serialized text.

use vstd::prelude::*;

verus! {

/// What `url::Url::parse` makes of the text `s`: the serialization of the
/// parsed absolute URL, or `None` where `s` does not parse as an absolute
/// URL. A function of `s` alone.
pub uninterp spec fn parsed_url(s: Seq<char>) -> Option<Seq<char>>;

/// What parsing `base` as an absolute URL and resolving the reference `rel`
/// against it yields: the serialization of the resolved URL, or `None` where
/// `base` does not parse or `rel` cannot be resolved against it. A function
/// of `base` and `rel` alone.
pub uninterp spec fn joined_url(base: Seq<char>, rel: Seq<char>) -> Option<Seq<char>>;

/// Relies on `url::Url::parse` and `String::from(Url)`: parses an absolute
/// URL and hands back its serialization, deterministically in `s`.
#[verifier::external_body]
pub(crate) fn parse_absolute_url(s: &str) -> (r: Option<String>)
    ensures
        match r {
            Some(u) => parsed_url(s@) == Some(u@),
            None => parsed_url(s@) is None,
        },
{
    match url::Url::parse(s) {
        Ok(u) => Some(String::from(u)),
        Err(_) => None,
    }
}

/// Relies on `url::Url::parse` and `url::Url::join`: parses `base`, resolves
/// `rel` against it, and hands back the serialization of the result,
/// deterministically in `base` and `rel`.
#[verifier::external_body]
pub(crate) fn join_url(base: &str, rel: &str) -> (r: Option<String>)
    ensures
        match r {
            Some(u) => joined_url(base@, rel@) == Some(u@),
            None => joined_url(base@, rel@) is None,
        },
{
    match url::Url::parse(base) {
        Ok(b) => match b.join(rel) {
            Ok(u) => Some(String::from(u)),
            Err(_) => None,
        },
        Err(_) => None,
    }
}

} // verus!

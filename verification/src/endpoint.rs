//! Parsing the base address and resolving endpoints against it.

use vstd::prelude::*;

verus! {

/// `reqwest::Url`: a parsed absolute URL. Opaque here.
#[verifier::external_type_specification]
#[verifier::external_body]
pub struct ExUrl(reqwest::Url);

/// The serialization of a `reqwest::Url`: the URL as text.
pub uninterp spec fn url_text(url: reqwest::Url) -> Seq<char>;

/// What `reqwest::Url::parse` makes of a text: the serialization of the
/// absolute URL that it parsed, or `None` where it rejects the text.
pub uninterp spec fn url_parse_text(text: Seq<char>) -> Option<Seq<char>>;

/// What `reqwest::Url::join` makes of an endpoint against a base, the base
/// given by its serialization: the serialization of the resolved URL, or
/// `None` where the endpoint cannot be resolved.
pub uninterp spec fn url_join_text(base: Seq<char>, endpoint: Seq<char>) -> Option<Seq<char>>;

/// Calls `reqwest::Url::parse`. The contract only names the outcome: success
/// and the serialization of the URL are those of `url_parse_text`.
#[verifier::external_body]
pub(crate) fn url_parse(text: &str) -> (r: Result<reqwest::Url, url::ParseError>)
    ensures
        match r {
            Ok(parsed) => url_parse_text(text@) == Some(url_text(parsed)),
            Err(_) => url_parse_text(text@).is_none(),
        },
{
    reqwest::Url::parse(text)
}

/// Calls `reqwest::Url::join`. The contract only names the outcome: success
/// and the serialization of the resolved URL are those of `url_join_text`
/// for the serialization of the base.
#[verifier::external_body]
pub(crate) fn url_join(base: &reqwest::Url, endpoint: &str) -> (r: Result<
    reqwest::Url,
    url::ParseError,
>)
    ensures
        match r {
            Ok(joined) => url_join_text(url_text(*base), endpoint@) == Some(url_text(joined)),
            Err(_) => url_join_text(url_text(*base), endpoint@).is_none(),
        },
{
    base.join(endpoint)
}

/// Calls `clone` on a `reqwest::Url`. The copy has the same serialization.
#[verifier::external_body]
pub(crate) fn url_clone(url: &reqwest::Url) -> (copy: reqwest::Url)
    ensures
        url_text(copy) == url_text(*url),
{
    url.clone()
}

} // verus!

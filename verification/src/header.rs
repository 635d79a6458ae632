//! The two headers that every request carries: the rule that decides whether
//! text can stand in a header value, and the header map that holds them.

use vstd::prelude::*;
use vstd::string::StringExecFns;

verus! {

/// `reqwest::header::HeaderValue`: the value of one header, with a mark that
/// tells whether it is sensitive. Opaque here.
#[verifier::external_type_specification]
#[verifier::external_body]
pub struct ExHeaderValue(reqwest::header::HeaderValue);

/// `reqwest::header::HeaderMap`: the headers of a request or of a client, each
/// name with the values set for it. Opaque here.
#[verifier::external_type_specification]
#[verifier::external_body]
#[verifier::reject_recursive_types(T)]
pub struct ExHeaderMap<T>(reqwest::header::HeaderMap<T>);

/// The text that a `reqwest::header::HeaderValue` holds: the text whose
/// UTF-8 encoding its bytes are.
pub uninterp spec fn header_value_text(value: reqwest::header::HeaderValue) -> Seq<char>;

/// Whether a `reqwest::header::HeaderValue` is marked sensitive.
pub uninterp spec fn header_value_sensitive(value: reqwest::header::HeaderValue) -> bool;

/// What a `reqwest::header::HeaderMap` holds: for each header name that is
/// present, in lower case, the values set for it in order, each as its text
/// and its sensitivity mark.
pub uninterp spec fn header_map_values(
    map: reqwest::header::HeaderMap<reqwest::header::HeaderValue>,
) -> Map<Seq<char>, Seq<(Seq<char>, bool)>>;

/// The names of the headers that the client sets.
#[derive(Clone, Copy, Debug, PartialEq, Eq, Structural)]
pub enum HeaderName {
    Authorization,
    ContentType,
}

/// A header name as it stands in a header map.
pub open spec fn header_name_text(name: HeaderName) -> Seq<char> {
    match name {
        HeaderName::Authorization => seq![
            'a', 'u', 't', 'h', 'o', 'r', 'i', 'z', 'a', 't', 'i', 'o', 'n',
        ],
        HeaderName::ContentType => seq!['c', 'o', 'n', 't', 'e', 'n', 't', '-', 't', 'y', 'p', 'e'],
    }
}

/// A character that may stand in a header value: anything but a control
/// character, with the horizontal tab allowed.
pub open spec fn header_char_ok(c: char) -> bool {
    (c >= ' ' && c != '\x7f') || c == '\t'
}

/// Text that may stand in a header value.
pub open spec fn header_text_ok(text: Seq<char>) -> bool {
    forall|i: int| 0 <= i < text.len() ==> header_char_ok(#[trigger] text[i])
}

/// The scheme prefix of the credential header.
pub open spec fn bearer_prefix() -> Seq<char> {
    seq!['B', 'e', 'a', 'r', 'e', 'r', ' ']
}

/// The value of the credential header for a token.
pub open spec fn bearer_text(token: Seq<char>) -> Seq<char> {
    bearer_prefix() + token
}

/// The value of the content-type header.
pub open spec fn json_content_type() -> Seq<char> {
    seq!['a', 'p', 'p', 'l', 'i', 'c', 'a', 't', 'i', 'o', 'n', '/', 'j', 's', 'o', 'n']
}

/// The headers that a client made with `token` attaches to every request:
/// one credential, marked sensitive, and one content type.
pub open spec fn default_headers(token: Seq<char>) -> Map<Seq<char>, Seq<(Seq<char>, bool)>> {
    Map::empty().insert(
        header_name_text(HeaderName::Authorization),
        seq![(bearer_text(token), true)],
    ).insert(header_name_text(HeaderName::ContentType), seq![(json_content_type(), false)])
}

/// A number of names below which a header map always takes one more.
pub open spec fn header_map_room() -> nat {
    128
}

/// Calls `reqwest::header::HeaderValue::from_str`. That function accepts the
/// text exactly when each of its bytes is at least 32 and not 127, or is the
/// tab. A character below 128 is one such byte, and a character from 128 on
/// is encoded in bytes from 128 on, so the text is accepted exactly when each
/// of its characters passes `header_char_ok`. The value then holds the text
/// and is not marked sensitive.
#[verifier::external_body]
pub(crate) fn header_value_from_str(text: &str) -> (r: Result<
    reqwest::header::HeaderValue,
    reqwest::header::InvalidHeaderValue,
>)
    ensures
        match r {
            Ok(value) => {
                &&& header_text_ok(text@)
                &&& header_value_text(value) == text@
                &&& !header_value_sensitive(value)
            },
            Err(_) => !header_text_ok(text@),
        },
{
    reqwest::header::HeaderValue::from_str(text)
}

/// Calls `reqwest::header::HeaderValue::set_sensitive`, which sets the mark
/// and leaves the text alone.
#[verifier::external_body]
pub(crate) fn header_value_set_sensitive(value: &mut reqwest::header::HeaderValue, sensitive: bool)
    ensures
        header_value_text(*final(value)) == header_value_text(*old(value)),
        header_value_sensitive(*final(value)) == sensitive,
{
    value.set_sensitive(sensitive)
}

/// Calls `reqwest::header::HeaderMap::new`, which makes a map without
/// headers.
#[verifier::external_body]
pub(crate) fn header_map_new() -> (headers: reqwest::header::HeaderMap<
    reqwest::header::HeaderValue,
>)
    ensures
        header_map_values(headers) =~= Map::empty(),
{
    reqwest::header::HeaderMap::new()
}

/// Calls `reqwest::header::HeaderMap::insert` with the header library's
/// constant for the name. Afterwards the name has the given value and no
/// other; the other names keep theirs. The call panics only where the map
/// would have to grow beyond its largest size, which a map of fewer than
/// `header_map_room` names never has to.
#[verifier::external_body]
pub(crate) fn header_map_insert(
    map: &mut reqwest::header::HeaderMap<reqwest::header::HeaderValue>,
    name: HeaderName,
    value: reqwest::header::HeaderValue,
)
    requires
        header_map_values(*old(map)).dom().finite(),
        header_map_values(*old(map)).dom().len() < header_map_room(),
    ensures
        header_map_values(*final(map)) == header_map_values(*old(map)).insert(
            header_name_text(name),
            seq![(header_value_text(value), header_value_sensitive(value))],
        ),
{
    match name {
        HeaderName::Authorization => map.insert(reqwest::header::AUTHORIZATION, value),
        HeaderName::ContentType => map.insert(reqwest::header::CONTENT_TYPE, value),
    };
}

/// Calls `clone` on a `reqwest::header::HeaderMap`. The copy holds the same
/// names with the same values and marks.
#[verifier::external_body]
pub(crate) fn header_map_clone(
    map: &reqwest::header::HeaderMap<reqwest::header::HeaderValue>,
) -> (copy: reqwest::header::HeaderMap<reqwest::header::HeaderValue>)
    ensures
        header_map_values(copy) == header_map_values(*map),
{
    map.clone()
}

/// Prefixing a token with the scheme does not change whether it can stand in
/// a header value.
pub proof fn lemma_bearer_text_ok(token: Seq<char>)
    ensures
        header_text_ok(bearer_text(token)) == header_text_ok(token),
{
    let full = bearer_text(token);
    let n = bearer_prefix().len() as int;
    assert(n == 7);
    if header_text_ok(token) {
        assert forall|i: int| 0 <= i < full.len() implies header_char_ok(#[trigger] full[i]) by {
            if i >= n {
                assert(full[i] == token[i - n]);
            }
        }
    }
    if header_text_ok(full) {
        assert forall|i: int| 0 <= i < token.len() implies header_char_ok(#[trigger] token[i]) by {
            assert(full[i + n] == token[i]);
        }
    }
}

/// The content type can always stand in a header value.
pub proof fn lemma_json_content_type_ok()
    ensures
        header_text_ok(json_content_type()),
{
}

/// The default headers hold two names. The credential header has exactly one
/// value, the scheme followed by the token, marked sensitive; the content-type
/// header has exactly one value, the JSON media type.
pub proof fn lemma_default_headers_exactly_one_each(token: Seq<char>)
    ensures
        default_headers(token).dom() =~= set![
            header_name_text(HeaderName::Authorization),
            header_name_text(HeaderName::ContentType),
        ],
        default_headers(token)[header_name_text(HeaderName::Authorization)].len() == 1,
        default_headers(token)[header_name_text(HeaderName::Authorization)][0] == (
            bearer_text(token),
            true,
        ),
        default_headers(token)[header_name_text(HeaderName::ContentType)].len() == 1,
        default_headers(token)[header_name_text(HeaderName::ContentType)][0] == (
            json_content_type(),
            false,
        ),
{
    lemma_header_names_differ();
}

/// The two header names are different names.
pub proof fn lemma_header_names_differ()
    ensures
        header_name_text(HeaderName::Authorization) != header_name_text(HeaderName::ContentType),
{
    assert(header_name_text(HeaderName::Authorization).len() == 13);
    assert(header_name_text(HeaderName::ContentType).len() == 12);
}

/// Builds the credential header value for a token.
pub fn bearer_value(token: &str) -> (value: String)
    ensures
        value@ == bearer_text(token@),
{
    proof {
        reveal_strlit("Bearer ");
        assert("Bearer "@ =~= bearer_prefix());
    }
    String::from_str("Bearer ").concat(token)
}

} // verus!

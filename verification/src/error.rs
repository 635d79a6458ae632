//! The failures that the client reports, and the envelope in which the remote
//! service reports its own.

use vstd::prelude::*;

verus! {

/// `reqwest::header::InvalidHeaderValue`: the error with which the header
/// library rejects text that cannot stand in a header value. Opaque here.
#[verifier::external_type_specification]
#[verifier::external_body]
pub struct ExInvalidHeaderValue(reqwest::header::InvalidHeaderValue);

/// `url::ParseError`: the error with which the URL library rejects text,
/// on parsing as well as on joining. Opaque here.
#[verifier::external_type_specification]
#[verifier::external_body]
pub struct ExUrlParseError(url::ParseError);

/// `serde_json::Error`: the error of a failed JSON encoding or decoding.
/// Opaque here.
#[verifier::external_type_specification]
#[verifier::external_body]
pub struct ExJsonError(serde_json::Error);

/// `reqwest::Error`: the error of a transport that could not be built or
/// could not obtain a response. Opaque here.
#[verifier::external_type_specification]
#[verifier::external_body]
pub struct ExTransportError(reqwest::Error);

/// Everything that can go wrong with a client or with one call. `A` is the
/// structured error that the remote service sends inside its envelope.
#[derive(Debug)]
pub enum ClientError<A> {
    /// The credential cannot be written as a header value.
    HeaderEncoding(reqwest::header::InvalidHeaderValue),
    /// The base address is not an absolute URL.
    UrlParse(url::ParseError),
    /// The endpoint cannot be resolved against the base address.
    UrlJoin(url::ParseError),
    /// The transport failed before a response was obtained.
    Transport(reqwest::Error),
    /// The request body has no JSON encoding.
    Serialization(serde_json::Error),
    /// The response body does not have the shape that its status calls for.
    Deserialization(serde_json::Error),
    /// The remote service answered with a structured error.
    Api(A),
}

/// The fixed wire shape of a failing response: `{ "error": <A> }`.
#[derive(Debug)]
pub struct ErrorWrapper<A> {
    pub error: A,
}

} // verus!

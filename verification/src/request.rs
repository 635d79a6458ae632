//! Requests as the client prepares them and responses as the transport hands
//! them back, both as plain values.

use vstd::prelude::*;
use crate::endpoint::url_text;

verus! {

/// The HTTP methods that the client uses.
#[derive(Clone, Copy, Debug, PartialEq, Eq, Structural)]
pub enum Method {
    Get,
    Post,
}

/// A request, ready for the transport: where it goes and what it carries
/// besides the client's default headers.
#[derive(Debug)]
pub struct Request {
    pub method: Method,
    pub url: reqwest::Url,
    pub body: Option<String>,
}

/// A request as a mathematical value.
pub struct RequestView {
    pub method: Method,
    pub url: Seq<char>,
    pub body: Option<Seq<char>>,
}

impl View for Request {
    type V = RequestView;

    open spec fn view(&self) -> RequestView {
        RequestView {
            method: self.method,
            url: url_text(self.url),
            body: match self.body {
                Some(text) => Some(text@),
                None => None,
            },
        }
    }
}

/// What the transport received: the numeric status and the whole body.
#[derive(Debug)]
pub struct Response {
    pub status: u16,
    pub body: Vec<u8>,
}

/// Whether a status lies in the success range, 200 to 299.
pub open spec fn status_is_success(status: u16) -> bool {
    200 <= status < 300
}

/// Tells whether a status lies in the success range.
pub fn is_success(status: u16) -> (yes: bool)
    ensures
        yes == status_is_success(status),
{
    200 <= status && status < 300
}

} // verus!

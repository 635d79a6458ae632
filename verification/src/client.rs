//! The client: what it attaches to every request and how it prepares one.

use vstd::prelude::*;
use crate::endpoint::{url_clone, url_join, url_join_text, url_parse, url_parse_text, url_text};
use crate::error::ClientError;
use crate::header::{
    bearer_prefix, bearer_text, bearer_value, default_headers, header_map_clone, header_map_insert,
    header_map_new, header_map_values, header_name_text, header_text_ok,
    header_value_from_str, header_value_set_sensitive, json_content_type, lemma_bearer_text_ok,
    lemma_header_names_differ, lemma_json_content_type_ok, HeaderName,
};
use crate::request::{Method, Request};

verus! {

/// A client for one remote service: the base address against which endpoints
/// are resolved, and the headers that every request carries.
#[derive(Debug)]
pub struct AsyncClient {
    base_url: reqwest::Url,
    headers: reqwest::header::HeaderMap<reqwest::header::HeaderValue>,
}

/// What resolving `endpoint` against `base` owes its caller: the URL that
/// joining gives, or `UrlJoin` where joining gives none.
pub open spec fn resolved<A>(
    base: Seq<char>,
    endpoint: Seq<char>,
    r: Result<reqwest::Url, ClientError<A>>,
) -> bool {
    match r {
        Ok(url) => url_join_text(base, endpoint) == Some(url_text(url)),
        Err(ClientError::UrlJoin(_)) => url_join_text(base, endpoint).is_none(),
        Err(_) => false,
    }
}

impl Clone for AsyncClient {
    /// A copy with the same base address and the same headers.
    fn clone(&self) -> (copy: Self)
        ensures
            copy.base() == self.base(),
            copy.default_headers() == self.default_headers(),
            copy.wf() == self.wf(),
    {
        AsyncClient { base_url: url_clone(&self.base_url), headers: header_map_clone(&self.headers) }
    }
}

impl AsyncClient {
    /// The base address, as the serialization of the URL it was parsed to.
    pub closed spec fn base(&self) -> Seq<char> {
        url_text(self.base_url)
    }

    /// The headers that every request of this client carries.
    pub closed spec fn default_headers(&self) -> Map<Seq<char>, Seq<(Seq<char>, bool)>> {
        header_map_values(self.headers)
    }

    /// What holds of every client: its headers are the credential header and
    /// the content-type header, each with one value. The credential is the
    /// scheme followed by text that is fit for a header value, and is marked
    /// sensitive; the content type is the JSON media type.
    pub open spec fn wf(&self) -> bool {
        let headers = self.default_headers();
        let credential = headers[header_name_text(HeaderName::Authorization)];
        &&& headers.dom() =~= set![
            header_name_text(HeaderName::Authorization),
            header_name_text(HeaderName::ContentType),
        ]
        &&& credential.len() == 1
        &&& credential[0].1
        &&& header_text_ok(credential[0].0)
        &&& bearer_prefix().is_prefix_of(credential[0].0)
        &&& headers[header_name_text(HeaderName::ContentType)] == seq![
            (json_content_type(), false),
        ]
    }

    /// Makes a client from a credential and a base address.
    ///
    /// Fails with `HeaderEncoding` exactly when the credential cannot stand in
    /// a header value, and otherwise with `UrlParse` exactly when the base
    /// address is not an absolute URL. On success the client carries the
    /// credential header, marked sensitive, and the content-type header.
    pub fn new<A>(token: &str, base_url: &str) -> (r: Result<AsyncClient, ClientError<A>>)
        ensures
            match r {
                Ok(client) => {
                    &&& client.wf()
                    &&& header_text_ok(token@)
                    &&& url_parse_text(base_url@) == Some(client.base())
                    &&& client.default_headers() == default_headers(token@)
                },
                Err(ClientError::HeaderEncoding(_)) => !header_text_ok(token@),
                Err(ClientError::UrlParse(_)) => header_text_ok(token@) && url_parse_text(
                    base_url@,
                ).is_none(),
                Err(_) => false,
            },
    {
        let credential = bearer_value(token);
        proof {
            lemma_bearer_text_ok(token@);
            lemma_json_content_type_ok();
            lemma_header_names_differ();
            reveal_strlit("application/json");
            assert("application/json"@ =~= json_content_type());
        }
        let mut authorization = match header_value_from_str(credential.as_str()) {
            Ok(value) => value,
            Err(e) => {
                return Err(ClientError::HeaderEncoding(e));
            },
        };
        header_value_set_sensitive(&mut authorization, true);
        let mut headers = header_map_new();
        header_map_insert(&mut headers, HeaderName::Authorization, authorization);
        let content_type = match header_value_from_str("application/json") {
            Ok(value) => value,
            Err(e) => {
                return Err(ClientError::HeaderEncoding(e));
            },
        };
        header_map_insert(&mut headers, HeaderName::ContentType, content_type);
        match url_parse(base_url) {
            Ok(base) => {
                assert(header_map_values(headers) =~= default_headers(token@));
                assert(bearer_prefix().is_prefix_of(bearer_text(token@)));
                Ok(AsyncClient { base_url: base, headers })
            },
            Err(e) => Err(ClientError::UrlParse(e)),
        }
    }

    /// Replaces the base address; meant for pointing a client at a stand-in
    /// service. The headers stay. Where the new address is not an absolute
    /// URL the client is left as it was.
    pub fn set_base_url<A>(&mut self, base_url: &str) -> (r: Result<(), ClientError<A>>)
        ensures
            final(self).default_headers() == old(self).default_headers(),
            final(self).wf() == old(self).wf(),
            match r {
                Ok(_) => url_parse_text(base_url@) == Some(final(self).base()),
                Err(ClientError::UrlParse(_)) => {
                    &&& url_parse_text(base_url@).is_none()
                    &&& final(self).base() == old(self).base()
                },
                Err(_) => false,
            },
    {
        match url_parse(base_url) {
            Ok(base) => {
                self.base_url = base;
                Ok(())
            },
            Err(e) => Err(ClientError::UrlParse(e)),
        }
    }

    /// The base address.
    pub fn base_url(&self) -> (url: &reqwest::Url)
        ensures
            url_text(*url) == self.base(),
    {
        &self.base_url
    }

    /// The headers that every request carries, for the transport to attach.
    pub fn headers(&self) -> (headers: &reqwest::header::HeaderMap<reqwest::header::HeaderValue>)
        ensures
            header_map_values(*headers) == self.default_headers(),
    {
        &self.headers
    }

    /// Resolves an endpoint against the base address. The result depends on
    /// the base address and the endpoint alone, and the client is not changed.
    pub fn resolve<A>(&self, endpoint: &str) -> (r: Result<reqwest::Url, ClientError<A>>)
        ensures
            resolved(self.base(), endpoint@, r),
    {
        match url_join(&self.base_url, endpoint) {
            Ok(url) => Ok(url),
            Err(e) => Err(ClientError::UrlJoin(e)),
        }
    }

    /// Prepares a GET request for an endpoint: the resolved URL and no body.
    /// Fails with `UrlJoin` exactly when the endpoint cannot be resolved.
    pub fn get<A>(&self, endpoint: &str) -> (r: Result<Request, ClientError<A>>)
        ensures
            match r {
                Ok(request) => {
                    &&& url_join_text(self.base(), endpoint@) == Some(request@.url)
                    &&& request.method == Method::Get
                    &&& request.body.is_none()
                },
                Err(ClientError::UrlJoin(_)) => url_join_text(self.base(), endpoint@).is_none(),
                Err(_) => false,
            },
    {
        match self.resolve::<A>(endpoint) {
            Ok(url) => Ok(Request { method: Method::Get, url, body: None }),
            Err(e) => Err(e),
        }
    }

    /// Prepares a POST request for an endpoint, with the body that `encode`
    /// makes of `body`. The endpoint is resolved first: where that fails the
    /// error is `UrlJoin`. Otherwise the body is encoded; where that fails the
    /// error is `Serialization`, with the encoder's own error, and no request
    /// exists. Otherwise the request carries the resolved URL and the encoded
    /// text.
    pub fn post<B, A, F>(&self, endpoint: &str, body: B, encode: F) -> (r: Result<
        Request,
        ClientError<A>,
    >) where F: FnOnce(&B) -> Result<String, serde_json::Error>
        requires
            encode.requires((&body,)),
        ensures
            match r {
                Ok(request) => {
                    &&& url_join_text(self.base(), endpoint@) == Some(request@.url)
                    &&& request.method == Method::Post
                    &&& match request.body {
                        Some(text) => encode.ensures((&body,), Ok(text)),
                        None => false,
                    }
                },
                Err(ClientError::UrlJoin(_)) => url_join_text(self.base(), endpoint@).is_none(),
                Err(ClientError::Serialization(e)) => url_join_text(
                    self.base(),
                    endpoint@,
                ).is_some() && encode.ensures((&body,), Err(e)),
                Err(_) => false,
            },
    {
        let url = match self.resolve::<A>(endpoint) {
            Ok(url) => url,
            Err(e) => {
                return Err(e);
            },
        };
        match encode(&body) {
            Ok(text) => Ok(Request { method: Method::Post, url, body: Some(text) }),
            Err(e) => Err(ClientError::Serialization(e)),
        }
    }
}

/// Resolving one endpoint against one base twice gives the same outcome:
/// both succeed with the same URL, or both fail with `UrlJoin`.
pub proof fn lemma_resolution_repeats<A>(
    base: Seq<char>,
    endpoint: Seq<char>,
    first: Result<reqwest::Url, ClientError<A>>,
    second: Result<reqwest::Url, ClientError<A>>,
)
    requires
        resolved(base, endpoint, first),
        resolved(base, endpoint, second),
    ensures
        match (first, second) {
            (Ok(a), Ok(b)) => url_text(a) == url_text(b),
            (Err(ClientError::UrlJoin(_)), Err(ClientError::UrlJoin(_))) => true,
            _ => false,
        },
{
}

/// The headers of a client made with `token`, which the transport attaches
/// to every request, hold exactly one credential header, equal to the scheme
/// followed by the token and marked sensitive, and exactly one content-type
/// header, equal to the JSON media type; and the client is well-formed.
pub proof fn lemma_client_carries_each_header_once(client: AsyncClient, token: Seq<char>)
    requires
        header_text_ok(token),
        client.default_headers() == default_headers(token),
    ensures
        client.wf(),
        client.default_headers()[header_name_text(HeaderName::Authorization)] == seq![
            (bearer_text(token), true),
        ],
        client.default_headers()[header_name_text(HeaderName::ContentType)] == seq![
            (json_content_type(), false),
        ],
{
    lemma_header_names_differ();
    lemma_bearer_text_ok(token);
    assert(bearer_prefix().is_prefix_of(bearer_text(token)));
}

} // verus!

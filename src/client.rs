//! The client: where the API lives, the credential it is called with, and
//! how its responses are told apart.

use reqwest::header::{HeaderMap, HeaderValue, AUTHORIZATION};
use reqwest::Client;
use vstd::prelude::*;
use vstd::utf8::encode_utf8;

use crate::errors::CoCClientError;
use crate::text::{decimal, encode_segment, push_decimal, url_encoded};

verus! {

#[verifier::external_type_specification]
#[verifier::external_body]
pub struct ExClient(Client);

#[verifier::external_type_specification]
#[verifier::external_body]
pub struct ExHeaderValue(HeaderValue);

/// Relies on `HeaderValue::set_sensitive`, which only sets a flag.
pub assume_specification[ HeaderValue::set_sensitive ](v: &mut HeaderValue, val: bool);

/// Bytes that a header value may hold: a tab, or anything from 32 up but 127.
pub open spec fn is_header_byte(b: u8) -> bool {
    (b >= 32 && b != 127) || b == 9
}

/// Text that can be sent as a header value: every byte of its UTF-8 form is
/// allowed there.
pub open spec fn is_header_text(s: Seq<char>) -> bool {
    forall|i: int| 0 <= i < encode_utf8(s).len() ==> is_header_byte(#[trigger] encode_utf8(s)[i])
}

/// The value of the `Authorization` header for a bearer token.
pub open spec fn bearer_value(token: Seq<char>) -> Seq<char> {
    "Bearer "@ + token
}

/// The `Authorization` header text for `bearer_token`: `Bearer ` and the token.
pub fn authorization_text(bearer_token: &str) -> (r: String)
    ensures
        r@ == bearer_value(bearer_token@),
{
    let mut auth = String::from_str("Bearer ");
    auth.append(bearer_token);
    auth
}

/// Relies on `HeaderValue::from_str`, which accepts the text exactly when every
/// byte of it is a tab, or from 32 up but 127.
#[verifier::external_body]
fn header_value(text: &str) -> (r: Option<HeaderValue>)
    ensures
        r.is_some() <==> is_header_text(text@),
{
    HeaderValue::from_str(text).ok()
}

/// Relies on reqwest's `ClientBuilder`: a client that sends `value` as the
/// `Authorization` header of each request, or `None` where `build` fails (a TLS
/// backend or the resolver's system configuration cannot be loaded). Whether
/// it fails depends on the machine, so nothing is stated.
#[verifier::external_body]
fn authorized_client(value: HeaderValue) -> (r: Option<Client>) {
    let headers: HeaderMap = [(AUTHORIZATION, value)].into_iter().collect();
    Client::builder().default_headers(headers).build().ok()
}

/// Represents a Clash of Clans API client.
pub struct CoCClient {
    pub base_url: String,
    pub bearer_token: String,
    /// The HTTP client the requests go through; `None` where none could be
    /// made, and then every request fails as missing its client.
    pub client: Option<Client>,
    pub url: String,
    pub version: String,
}

impl CoCClient {
    /// Creates a client for the API's first version, authenticated by
    /// `bearer_token`. Where `client` is `None`, a default HTTP client is made
    /// that sends the token, marked sensitive, as a bearer `Authorization`
    /// header; the token must then be fit for a header value. The default
    /// client is left out only where the machine cannot build one.
    pub fn new(bearer_token: String, client: Option<Client>) -> (r: Self)
        requires
            client.is_none() ==> is_header_text(bearer_value(bearer_token@)),
        ensures
            r.base_url@ == "https://api.clashofclans.com"@,
            r.version@ == "v1"@,
            r.url@ == r.base_url@ + "/"@ + r.version@,
            r.bearer_token@ == bearer_token@,
            client.is_some() ==> r.client == client,
    {
        let base_url = String::from_str("https://api.clashofclans.com");
        let version = String::from_str("v1");
        let mut url = base_url.clone();
        url.append("/");
        url.append(version.as_str());
        let client = match client {
            Some(c) => Some(c),
            None => {
                let auth = authorization_text(bearer_token.as_str());
                match header_value(auth.as_str()) {
                    Some(mut value) => {
                        value.set_sensitive(true);
                        authorized_client(value)
                    },
                    None => None,
                }
            },
        };
        CoCClient { base_url, bearer_token, client, url, version }
    }

    /// The HTTP client that requests are sent through, or
    /// `MissingClientError` where there is none.
    pub fn take_client(self) -> (r: Result<Client, CoCClientError>)
        ensures
            self.client.is_some() <==> r.is_ok(),
            r.is_ok() ==> self.client == Some(r.unwrap()),
            r.is_err() ==> r matches Err(CoCClientError::MissingClientError),
    {
        match self.client {
            Some(c) => Ok(c),
            None => Err(CoCClientError::MissingClientError),
        }
    }

    /// The address of `route` under the API's versioned URL.
    pub(crate) fn endpoint(&self, route: &str) -> (r: String)
        ensures
            r@ == self.url@ + route@,
    {
        let mut path = self.url.clone();
        path.append(route);
        path
    }

    /// The address of `route`, then `tag` percent-encoded.
    pub(crate) fn tagged_endpoint(&self, route: &str, tag: &str) -> (r: String)
        ensures
            r@ == self.url@ + route@ + url_encoded(tag@),
    {
        let mut path = self.endpoint(route);
        let encoded = encode_segment(tag);
        path.append(encoded.as_str());
        path
    }

    /// The address of `route`, then `id` in decimal.
    pub(crate) fn numbered_endpoint(&self, route: &str, id: u32) -> (r: String)
        ensures
            r@ == self.url@ + route@ + decimal(id as nat),
    {
        let mut path = self.endpoint(route);
        push_decimal(&mut path, id);
        path
    }
}

/// What came back from the API for one request: the status code and the body.
pub struct ClientResponse {
    pub text: String,
    pub status_code: u16,
}

/// How a response is read, by its status code.
#[derive(Debug, Clone, Copy, PartialEq, Eq, Structural)]
pub enum ResponseClass {
    /// `200 OK`: the body holds the requested resource.
    Success,
    /// A `4xx` status: the body describes a client error.
    ClientFailure,
    /// A `5xx` status: the body describes a server error.
    ServerFailure,
    /// Any other status: nothing is read from the body.
    Unexpected,
}

/// The class of a status code.
pub open spec fn class_of_status(code: u16) -> ResponseClass {
    if code == 200 {
        ResponseClass::Success
    } else if 400 <= code && code <= 499 {
        ResponseClass::ClientFailure
    } else if 500 <= code && code <= 599 {
        ResponseClass::ServerFailure
    } else {
        ResponseClass::Unexpected
    }
}

/// Tells how a response with status `code` is to be read.
pub fn classify_status(code: u16) -> (r: ResponseClass)
    ensures
        r == class_of_status(code),
{
    if code == 200 {
        ResponseClass::Success
    } else if 400 <= code && code <= 499 {
        ResponseClass::ClientFailure
    } else if 500 <= code && code <= 599 {
        ResponseClass::ServerFailure
    } else {
        ResponseClass::Unexpected
    }
}

/// The cursors of a page of a listing: where the pages before and after
/// this one start.
#[derive(Debug, Clone, PartialEq)]
pub struct Cursors {
    pub before: Option<String>,
    pub after: Option<String>,
}

/// The paging part of a listing.
#[derive(Debug, Clone, PartialEq)]
pub struct Paging {
    pub cursors: Cursors,
}

/// One page of a listing endpoint's items.
#[derive(Debug, Clone, PartialEq)]
pub struct PagedResponse<T> {
    pub items: Vec<T>,
    pub paging: Paging,
}

} // verus!

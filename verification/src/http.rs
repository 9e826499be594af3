//! Requests to send and replies received, as plain values.
//!
//! The crate never performs a request. It hands an `HttpRequest` to its
//! caller and is handed back what came of it as a `Fetched`.

use vstd::prelude::*;
use vstd::string::*;

verus! {

/// The methods that the crate's requests use.
#[derive(Clone, Copy, PartialEq, Eq, Structural, Debug)]
pub enum HttpMethod {
    Get,
    Post,
    Put,
    Patch,
    Delete,
}

/// A request for the caller to send: an absolute URL, the headers in order
/// and the body text, if there is one.
#[derive(Clone, Debug)]
pub struct HttpRequest {
    pub method: HttpMethod,
    pub url: String,
    pub headers: Vec<(String, String)>,
    pub body: Option<String>,
}

/// The mathematical content of a request.
pub struct RequestModel {
    pub method: HttpMethod,
    pub url: Seq<char>,
    pub headers: Seq<(Seq<char>, Seq<char>)>,
    pub body: Option<Seq<char>>,
}

/// Header names and values as character sequences.
pub open spec fn header_pairs(headers: Seq<(String, String)>) -> Seq<(Seq<char>, Seq<char>)> {
    Seq::new(headers.len(), |i: int| (headers[i].0@, headers[i].1@))
}

/// The characters of an optional text.
pub open spec fn text_of(t: Option<String>) -> Option<Seq<char>> {
    match t {
        Some(s) => Some(s@),
        None => None,
    }
}

impl View for HttpRequest {
    type V = RequestModel;

    open spec fn view(&self) -> RequestModel {
        RequestModel {
            method: self.method,
            url: self.url@,
            headers: header_pairs(self.headers@),
            body: text_of(self.body),
        }
    }
}

/// The first of two optional values that is there.
pub open spec fn or_else<T>(first: Option<T>, second: Option<T>) -> Option<T> {
    match first {
        Some(v) => Some(v),
        None => second,
    }
}

/// The first of two optional values that is there.
pub fn first_of<T>(first: Option<T>, second: Option<T>) -> (r: Option<T>)
    ensures
        r == or_else(first, second),
{
    match first {
        Some(v) => Some(v),
        None => second,
    }
}

/// A reply that arrived: its status code and its body text.
#[derive(Clone, Debug)]
pub struct HttpResponse {
    pub status: u16,
    pub body: String,
}

/// What came of a request: a reply, or nothing because the call could not be
/// made or its reply could not be read.
#[derive(Clone, Debug)]
pub enum Fetched {
    Response(HttpResponse),
    Failed,
}

/// Why a call to one of the services failed.
#[derive(Clone, Copy, PartialEq, Eq, Structural, Debug)]
pub enum ServiceError {
    /// The service answered with a status that the operation does not accept.
    Status(u16),
    /// The service answered with success, but its body does not read as what
    /// was expected.
    Malformed,
    /// No answer was received.
    Unreachable,
    /// None of the known forms of an endpoint exists on the service.
    NoEndpoint,
    /// Nothing says where the service is reached.
    Unconfigured,
}

/// The one header that requests with a JSON body carry.
pub open spec fn json_headers() -> Seq<(Seq<char>, Seq<char>)> {
    seq![("Content-Type"@, "application/json"@)]
}

/// The one header that requests with a JSON body carry.
pub fn content_type_json() -> (r: Vec<(String, String)>)
    ensures
        header_pairs(r@) == json_headers(),
{
    let mut h: Vec<(String, String)> = Vec::new();
    h.push((String::from_str("Content-Type"), String::from_str("application/json")));
    assert(header_pairs(h@) =~= json_headers());
    h
}

} // verus!

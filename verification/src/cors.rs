//! Replies to the caller of the service, and the headers that let browsers
//! of any origin read them.

use vstd::prelude::*;
use vstd::string::*;
use crate::http::header_pairs;

verus! {

/// What a reply carries.
#[derive(Debug)]
pub enum Body<T> {
    /// A value that the caller of this crate writes as JSON.
    Value(T),
    /// JSON text, ready to send.
    Json(String),
    /// Plain text.
    Text(String),
}

/// A reply to the caller of the service.
#[derive(Debug)]
pub struct Response<T> {
    pub status: u16,
    pub headers: Vec<(String, String)>,
    pub body: Body<T>,
}

/// The headers that open a reply to every origin.
pub open spec fn cors_headers() -> Seq<(Seq<char>, Seq<char>)> {
    seq![
        ("Access-Control-Allow-Origin"@, "*"@),
        ("Access-Control-Allow-Methods"@, "GET, POST, PATCH, DELETE, OPTIONS"@),
        ("Access-Control-Allow-Headers"@, "Content-Type, Authorization"@),
        ("Access-Control-Max-Age"@, "86400"@),
    ]
}

/// The headers that open a reply to every origin.
pub fn get_headers() -> (r: Vec<(String, String)>)
    ensures
        header_pairs(r@) == cors_headers(),
{
    let mut h: Vec<(String, String)> = Vec::new();
    h.push((String::from_str("Access-Control-Allow-Origin"), String::from_str("*")));
    h.push(
        (
            String::from_str("Access-Control-Allow-Methods"),
            String::from_str("GET, POST, PATCH, DELETE, OPTIONS"),
        ),
    );
    h.push(
        (
            String::from_str("Access-Control-Allow-Headers"),
            String::from_str("Content-Type, Authorization"),
        ),
    );
    h.push((String::from_str("Access-Control-Max-Age"), String::from_str("86400")));
    assert(header_pairs(h@) =~= cors_headers());
    h
}

/// Adds the headers that open a reply to every origin, after the headers
/// that the reply has. Status and body stay as they are.
pub fn add_headers<T>(res: Response<T>) -> (r: Response<T>)
    ensures
        r.status == res.status,
        r.body == res.body,
        header_pairs(r.headers@) == header_pairs(res.headers@) + cors_headers(),
{
    let mut res = res;
    let ghost before = res.headers@;
    let mut extra = get_headers();
    res.headers.append(&mut extra);
    assert(header_pairs(res.headers@) =~= header_pairs(before) + cors_headers()) by {
        assert(header_pairs(res.headers@).len() == before.len() + 4);
        assert forall|i: int| 0 <= i < header_pairs(res.headers@).len() implies header_pairs(
            res.headers@,
        )[i] == (header_pairs(before) + cors_headers())[i] by {
            if i >= before.len() {
                let extra_pairs = cors_headers();
                assert(extra_pairs[i - before.len()] == (header_pairs(before) + cors_headers())[i]);
            }
        }
    }
    res
}

/// Answers a browser's question before a request of another origin.
pub fn handle_preflight() -> (r: Response<()>)
    ensures
        r.status == 200,
        r.body matches Body::Text(t) && t@.len() == 0,
        header_pairs(r.headers@) == cors_headers(),
{
    let res = Response { status: 200, headers: Vec::new(), body: Body::Text(String::new()) };
    assert(header_pairs(res.headers@) =~= Seq::<(Seq<char>, Seq<char>)>::empty());
    let r = add_headers(res);
    assert(header_pairs(r.headers@) =~= cors_headers());
    r
}

} // verus!

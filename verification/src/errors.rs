//! The replies that report a failure.
//!
//! A failure inside the service is reported without its cause: the body of
//! such a reply holds a fixed message, never the text of a backend.

use vstd::prelude::*;
use vstd::string::*;
use crate::cors::{add_headers, cors_headers, Body, Response};
use crate::http::header_pairs;
use crate::json::{
    empty_object, json_rendered, render, set_member, single, text_value, JsonModel,
};

verus! {

/// `r` reports a failure: the given status, the headers that open the reply
/// to every origin, and a JSON object that holds `msg` under `label` and
/// nothing else.
pub open spec fn is_failure<T>(
    r: Response<T>,
    status: u16,
    label: Seq<char>,
    msg: Seq<char>,
) -> bool {
    &&& r.status == status
    &&& header_pairs(r.headers@) == cors_headers()
    &&& match r.body {
        Body::Json(text) => text@ == json_rendered(single(label, JsonModel::Text(msg))),
        _ => false,
    }
}

fn failure<T>(label: &str, msg: &str, status: u16) -> (r: Response<T>)
    ensures
        is_failure(r, status, label@, msg@),
{
    let mut d = empty_object();
    set_member(&mut d, label, text_value(msg));
    let res = Response { status, headers: Vec::new(), body: Body::Json(render(&d)) };
    assert(header_pairs(res.headers@) =~= Seq::<(Seq<char>, Seq<char>)>::empty());
    let r = add_headers(res);
    assert(header_pairs(r.headers@) =~= cors_headers());
    r
}

/// The reply that tells the caller what was wrong with the request.
pub fn json_error<T>(msg: &str, status: u16) -> (r: Response<T>)
    ensures
        is_failure(r, status, "error"@, msg@),
{
    failure("error", msg, status)
}

/// The reply for a failure inside the service: status 500 and the given
/// message.
pub fn json_server_error<T>(msg: &str) -> (r: Response<T>)
    ensures
        is_failure(r, 500, "message"@, msg@),
{
    failure("message", msg, 500)
}

/// The reply to a caller who may not do what was asked.
pub fn forbidden<T>() -> (r: Response<T>)
    ensures
        is_failure(r, 403, "error"@, "Forbidden"@),
{
    json_error("Forbidden", 403)
}

} // verus!

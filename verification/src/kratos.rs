//! The client of the identity service.
//!
//! An identity is looked up under an administrative path first and under a
//! plain path second. What comes back is kept as the JSON document it is;
//! the two things read from it are the role and an email address.

use vstd::prelude::*;
use vstd::string::*;
use crate::http::{
    content_type_json, first_of, json_headers, or_else, text_of, Fetched, HttpMethod,
    HttpRequest, RequestModel, ServiceError,
};
use crate::json::{
    as_elements, elements_in, json_model, json_parsed, member, member_of, parse, JsonModel,
};
use crate::keto::{member_text, read_text, Verdict};

verus! {

/// Where the identity service is reached.
#[derive(Clone, Debug)]
pub struct KratosClient {
    pub admin_url: String,
}

/// The paths under which an identity may be found, in the order in which
/// they are tried. The identity's id follows each.
pub open spec fn identity_paths() -> Seq<Seq<char>> {
    seq!["/admin/identities/"@, "/identities/"@]
}

/// How many paths are tried.
pub const IDENTITY_FORMS: usize = 2;

/// The request that asks for the identity `id` under the path `i`.
pub open spec fn identity_request(admin_url: Seq<char>, id: Seq<char>, i: int) -> RequestModel {
    RequestModel {
        method: HttpMethod::Get,
        url: admin_url + identity_paths()[i] + id,
        headers: json_headers(),
        body: None,
    }
}

/// What a reply under one path means.
pub open spec fn identity_verdict(f: Fetched) -> Verdict<JsonModel> {
    match f {
        Fetched::Failed => Verdict::Fatal(ServiceError::Unreachable),
        Fetched::Response(resp) => if resp.status == 200 {
            match json_parsed(resp.body@) {
                Some(v) => Verdict::Success(v),
                None => Verdict::Fatal(ServiceError::Malformed),
            }
        } else if resp.status == 404 {
            Verdict::TryNext
        } else {
            Verdict::Fatal(ServiceError::Status(resp.status))
        },
    }
}

/// What a lookup does next: ask under the next path, or end with the
/// identity or an error.
#[derive(Debug)]
pub enum IdentityStep {
    Send(usize, HttpRequest),
    Done(Result<serde_json::Value, ServiceError>),
}

/// The move of a lookup, without the request that goes with it: where it
/// ends with an identity, what that identity holds.
pub enum IdentityMove {
    Wait(usize),
    Finish(Result<JsonModel, ServiceError>),
}

/// How a lookup that waits under path `i` moves on a reply. Not found under
/// the last path ends the lookup: there is nothing to fall back on.
pub open spec fn identity_move(i: usize, f: Fetched) -> IdentityMove {
    match identity_verdict(f) {
        Verdict::Success(v) => IdentityMove::Finish(Ok(v)),
        Verdict::Fatal(e) => IdentityMove::Finish(Err(e)),
        Verdict::TryNext => if i + 1 < identity_paths().len() {
            IdentityMove::Wait((i + 1) as usize)
        } else {
            IdentityMove::Finish(Err(ServiceError::NoEndpoint))
        },
    }
}

/// `step` is what a lookup of `id` that waits under path `i` does on `f`.
pub open spec fn is_identity_step(
    step: IdentityStep,
    admin_url: Seq<char>,
    id: Seq<char>,
    i: usize,
    f: Fetched,
) -> bool {
    match identity_move(i, f) {
        IdentityMove::Finish(Ok(identity)) => match step {
            IdentityStep::Done(Ok(v)) => json_model(v) == identity,
            _ => false,
        },
        IdentityMove::Finish(Err(e)) => match step {
            IdentityStep::Done(Err(cause)) => cause == e,
            _ => false,
        },
        IdentityMove::Wait(next) => match step {
            IdentityStep::Send(n, request) => n == next && request@ == identity_request(
                admin_url,
                id,
                next as int,
            ),
            IdentityStep::Done(_) => false,
        },
    }
}

/// The result of a lookup that waits under path `i` and receives `replies`
/// one after the other; `None` while it still waits.
pub open spec fn identity_outcome(i: usize, replies: Seq<Fetched>) -> Option<
    Result<JsonModel, ServiceError>,
>
    decreases replies.len(),
{
    if replies.len() == 0 {
        None
    } else {
        match identity_move(i, replies[0]) {
            IdentityMove::Finish(result) => Some(result),
            IdentityMove::Wait(next) => identity_outcome(next, replies.drop_first()),
        }
    }
}

/// The role that an identity document states under `metadata_public`.
pub open spec fn role_of(v: JsonModel) -> Option<Seq<char>> {
    match member_of(v, "metadata_public"@) {
        Some(m) => member_text(m, "role"@),
        None => None,
    }
}

/// The first text found under `value` in a list of addresses.
pub open spec fn first_value(es: Seq<JsonModel>) -> Option<Seq<char>>
    decreases es.len(),
{
    if es.len() == 0 {
        None
    } else {
        match member_text(es[0], "value"@) {
            Some(s) => Some(s),
            None => first_value(es.drop_first()),
        }
    }
}

/// The email address of an identity: the `email` trait where it is text,
/// else the first verifiable address that has a value.
pub open spec fn email_of(v: JsonModel) -> Option<Seq<char>> {
    let from_traits = match member_of(v, "traits"@) {
        Some(t) => member_text(t, "email"@),
        None => None,
    };
    match from_traits {
        Some(e) => Some(e),
        None => match member_of(v, "verifiable_addresses"@) {
            Some(a) => match elements_in(a) {
                Some(es) => first_value(es),
                None => None,
            },
            None => None,
        },
    }
}

fn identity_path(i: usize) -> (r: &'static str)
    requires
        i < IDENTITY_FORMS,
    ensures
        r@ == identity_paths()[i as int],
{
    if i == 0 {
        "/admin/identities/"
    } else {
        "/identities/"
    }
}

/// Classifies the reply under one path.
pub fn classify_identity(fetched: &Fetched) -> (r: Verdict<serde_json::Value>)
    ensures
        match identity_verdict(*fetched) {
            Verdict::Success(identity) => r is Success && json_model(r->Success_0) == identity,
            Verdict::TryNext => r is TryNext,
            Verdict::Fatal(e) => r is Fatal && r->Fatal_0 == e,
        },
{
    match fetched {
        Fetched::Failed => Verdict::Fatal(ServiceError::Unreachable),
        Fetched::Response(resp) => {
            if resp.status == 200 {
                match parse(resp.body.as_str()) {
                    Some(v) => Verdict::Success(v),
                    None => Verdict::Fatal(ServiceError::Malformed),
                }
            } else if resp.status == 404 {
                Verdict::TryNext
            } else {
                Verdict::Fatal(ServiceError::Status(resp.status))
            }
        },
    }
}

/// Reads the role of an identity.
pub fn read_role(v: &serde_json::Value) -> (r: Option<String>)
    ensures
        text_of(r) == role_of(json_model(*v)),
{
    match member(v, "metadata_public") {
        Some(m) => read_text(m, "role"),
        None => None,
    }
}

/// Reads the email address of an identity.
pub fn read_email(v: &serde_json::Value) -> (r: Option<String>)
    ensures
        text_of(r) == email_of(json_model(*v)),
{
    let from_traits = match member(v, "traits") {
        Some(t) => read_text(t, "email"),
        None => None,
    };
    if from_traits.is_some() {
        return from_traits;
    }
    match member(v, "verifiable_addresses") {
        Some(a) => match as_elements(a) {
            Some(es) => {
                let ghost held = elements_in(json_model(*a)).unwrap();
                let mut i: usize = 0;
                assert(held.subrange(0, held.len() as int) =~= held);
                while i < es.len()
                    invariant
                        i <= es.len(),
                        es@.len() == held.len(),
                        forall|j: int|
                            0 <= j < es@.len() ==> json_model(#[trigger] es@[j]) == held[j],
                        email_of(json_model(*v)) == first_value(
                            held.subrange(i as int, held.len() as int),
                        ),
                    decreases es.len() - i,
                {
                    let found = read_text(&es[i], "value");
                    let ghost rest = held.subrange(i as int, held.len() as int);
                    assert(rest[0] == held[i as int]);
                    assert(rest.drop_first() =~= held.subrange(i + 1, held.len() as int));
                    if found.is_some() {
                        return found;
                    }
                    i = i + 1;
                }
                None
            },
            None => None,
        },
        None => None,
    }
}

impl KratosClient {
    /// A client for the service at the given base URL.
    pub fn new(admin_url: String) -> (r: Self)
        ensures
            r.admin_url == admin_url,
    {
        KratosClient { admin_url }
    }

    /// Makes the client from what the environment holds: the administrative
    /// URL, as a variable or else as a secret, counts before the public URL,
    /// as a variable or else as a secret. Without any there is no client.
    pub fn from_env(
        admin_var: Option<String>,
        admin_secret: Option<String>,
        public_var: Option<String>,
        public_secret: Option<String>,
    ) -> (r: Option<Self>)
        ensures
            r == match or_else(
                or_else(admin_var, admin_secret),
                or_else(public_var, public_secret),
            ) {
                Some(admin_url) => Some(KratosClient { admin_url }),
                None => None,
            },
    {
        match first_of(first_of(admin_var, admin_secret), first_of(public_var, public_secret)) {
            Some(admin_url) => Some(KratosClient { admin_url }),
            None => None,
        }
    }

    fn request(&self, id: &str, i: usize) -> (r: HttpRequest)
        requires
            i < IDENTITY_FORMS,
        ensures
            r@ == identity_request(self.admin_url@, id@, i as int),
    {
        let mut url = self.admin_url.clone();
        url.append(identity_path(i));
        url.append(id);
        HttpRequest { method: HttpMethod::Get, url, headers: content_type_json(), body: None }
    }

    /// Starts the lookup of an identity under the first path.
    pub fn get_identity_begin(&self, id: &str) -> (r: (usize, HttpRequest))
        ensures
            r.0 == 0,
            r.1@ == identity_request(self.admin_url@, id@, 0),
    {
        (0, self.request(id, 0))
    }

    /// Moves the lookup of an identity on by one reply.
    pub fn get_identity(&self, id: &str, i: usize, fetched: &Fetched) -> (r: IdentityStep)
        ensures
            is_identity_step(r, self.admin_url@, id@, i, *fetched),
    {
        match classify_identity(fetched) {
            Verdict::Success(v) => IdentityStep::Done(Ok(v)),
            Verdict::Fatal(e) => IdentityStep::Done(Err(e)),
            Verdict::TryNext => {
                if i < IDENTITY_FORMS - 1 {
                    IdentityStep::Send(i + 1, self.request(id, i + 1))
                } else {
                    IdentityStep::Done(Err(ServiceError::NoEndpoint))
                }
            },
        }
    }
}

} // verus!

//! Who is acting, and whether that user is an administrator.

use vstd::prelude::*;
use vstd::string::*;
use crate::http::{text_of, Fetched, HttpRequest};
use crate::keto::{
    check_move, request_of, CheckModel, CheckMove, CheckParams, CheckState, CheckStep,
    KetoClient,
};
use crate::kratos::{
    identity_move, identity_request, read_role, role_of, IdentityMove, IdentityStep, KratosClient,
};
use crate::text::{trim, trimmed};
use crate::todo_repo::{subject_id, user_subject};

verus! {

/// The acting user that a header value names: the value without the white
/// space around it, unless nothing is left of it.
pub open spec fn user_id_of(header: Option<Seq<char>>) -> Option<Seq<char>> {
    match header {
        Some(h) => if trimmed(h).len() == 0 {
            None
        } else {
            Some(trimmed(h))
        },
        None => None,
    }
}

/// Reads the acting user from the value of the `X-User-Id` header. `None`
/// means that the request does not say who is acting.
pub fn get_user_id(header: Option<&str>) -> (r: Option<String>)
    ensures
        text_of(r) == user_id_of(
            match header {
                Some(h) => Some(h@),
                None => None,
            },
        ),
{
    match header {
        Some(h) => {
            let t = trim(h);
            if t.as_str().unicode_len() == 0 {
                None
            } else {
                Some(t)
            }
        },
        None => None,
    }
}

/// The question whether a user is a member of the administrators.
pub open spec fn admin_membership(user_id: Seq<char>) -> CheckModel {
    CheckModel {
        namespace: "roles"@,
        object: "admin"@,
        relation: "member"@,
        subject_id: Some(user_subject(user_id)),
        subject_set: None,
        max_depth: None,
    }
}

/// Where the question "is this user an administrator?" stands.
#[derive(Clone, Copy, PartialEq, Eq, Structural, Debug)]
pub enum AdminState {
    /// Waiting for the user's identity, asked under the path of this number.
    Identity(usize),
    /// Waiting for the membership check.
    Check(CheckState),
}

/// What the question does next: send a request, or end with its answer.
#[derive(Debug)]
pub enum AdminStep {
    Send(AdminState, HttpRequest),
    Done(bool),
}

/// `step` turns to the tuple service: it puts the membership question to
/// the first form of the check endpoint, or answers "no" where no tuple
/// service is known.
pub open spec fn is_membership_start(
    step: AdminStep,
    keto: Option<KetoClient>,
    user_id: Seq<char>,
) -> bool {
    match keto {
        None => step == AdminStep::Done(false),
        Some(k) => match step {
            AdminStep::Send(AdminState::Check(cs), request) => cs == CheckState::Candidate(0)
                && request@ == request_of(k.read_url@, admin_membership(user_id), cs),
            _ => false,
        },
    }
}

/// `step` is how the question starts: with the user's identity where an
/// identity service is known, else with the tuple service.
pub open spec fn is_admin_start(
    step: AdminStep,
    kratos: Option<KratosClient>,
    keto: Option<KetoClient>,
    user_id: Seq<char>,
) -> bool {
    match kratos {
        Some(k) => match step {
            AdminStep::Send(AdminState::Identity(i), request) => i == 0 && request@
                == identity_request(k.admin_url@, user_id, 0),
            _ => false,
        },
        None => is_membership_start(step, keto, user_id),
    }
}

/// `step` is what the question does in `state` on the reply `f`. An identity
/// whose role is `admin` settles it. Every failure on the way counts as
/// "not known to be an administrator": the question never fails.
pub open spec fn is_admin_step(
    step: AdminStep,
    kratos: Option<KratosClient>,
    keto: Option<KetoClient>,
    user_id: Seq<char>,
    state: AdminState,
    f: Fetched,
) -> bool {
    match state {
        AdminState::Identity(i) => match kratos {
            None => is_membership_start(step, keto, user_id),
            Some(k) => match identity_move(i, f) {
                IdentityMove::Wait(next) => match step {
                    AdminStep::Send(AdminState::Identity(n), request) => n == next && request@
                        == identity_request(k.admin_url@, user_id, next as int),
                    _ => false,
                },
                IdentityMove::Finish(Ok(v)) => if role_of(v) == Some("admin"@) {
                    step == AdminStep::Done(true)
                } else {
                    is_membership_start(step, keto, user_id)
                },
                IdentityMove::Finish(Err(_)) => is_membership_start(step, keto, user_id),
            },
        },
        AdminState::Check(cs) => match keto {
            None => step == AdminStep::Done(false),
            Some(k) => match check_move(cs, f) {
                CheckMove::Wait(next) => match step {
                    AdminStep::Send(AdminState::Check(n), request) => n == next && request@
                        == request_of(k.read_url@, admin_membership(user_id), next),
                    _ => false,
                },
                CheckMove::Finish(Ok(allowed)) => step == AdminStep::Done(allowed),
                CheckMove::Finish(Err(_)) => step == AdminStep::Done(false),
            },
        },
    }
}

/// The question whether a user is a member of the administrators.
pub fn membership_check(user_id: &str) -> (r: CheckParams)
    ensures
        r@ == admin_membership(user_id@),
{
    CheckParams {
        namespace: String::from_str("roles"),
        object: String::from_str("admin"),
        relation: String::from_str("member"),
        subject_id: Some(subject_id(user_id)),
        subject_set: None,
        max_depth: None,
    }
}

fn membership_start(keto: &Option<KetoClient>, user_id: &str) -> (r: AdminStep)
    ensures
        is_membership_start(r, *keto, user_id@),
{
    match keto {
        None => AdminStep::Done(false),
        Some(k) => {
            let p = membership_check(user_id);
            let (cs, request) = k.check_begin(&p);
            AdminStep::Send(AdminState::Check(cs), request)
        },
    }
}

/// Starts the question whether `user_id` is an administrator.
pub fn is_admin_begin(
    kratos: &Option<KratosClient>,
    keto: &Option<KetoClient>,
    user_id: &str,
) -> (r: AdminStep)
    ensures
        is_admin_start(r, *kratos, *keto, user_id@),
{
    match kratos {
        Some(k) => {
            let (i, request) = k.get_identity_begin(user_id);
            AdminStep::Send(AdminState::Identity(i), request)
        },
        None => membership_start(keto, user_id),
    }
}

/// Moves the question on by one reply.
pub fn is_admin(
    kratos: &Option<KratosClient>,
    keto: &Option<KetoClient>,
    user_id: &str,
    state: AdminState,
    fetched: &Fetched,
) -> (r: AdminStep)
    ensures
        is_admin_step(r, *kratos, *keto, user_id@, state, *fetched),
{
    match state {
        AdminState::Identity(i) => match kratos {
            None => membership_start(keto, user_id),
            Some(k) => match k.get_identity(user_id, i, fetched) {
                IdentityStep::Send(next, request) => AdminStep::Send(
                    AdminState::Identity(next),
                    request,
                ),
                IdentityStep::Done(Ok(v)) => {
                    let is_admin_role = match read_role(&v) {
                        Some(role) => role == String::from_str("admin"),
                        None => false,
                    };
                    if is_admin_role {
                        AdminStep::Done(true)
                    } else {
                        membership_start(keto, user_id)
                    }
                },
                IdentityStep::Done(Err(_)) => membership_start(keto, user_id),
            },
        },
        AdminState::Check(cs) => match keto {
            None => AdminStep::Done(false),
            Some(k) => {
                let p = membership_check(user_id);
                match k.check(&p, cs, fetched) {
                    CheckStep::Send(next, request) => AdminStep::Send(
                        AdminState::Check(next),
                        request,
                    ),
                    CheckStep::Done(Ok(allowed)) => AdminStep::Done(allowed),
                    CheckStep::Done(Err(_)) => AdminStep::Done(false),
                }
            },
        },
    }
}

} // verus!

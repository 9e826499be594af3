//! What the service answers, route by route.
//!
//! A route starts with its `*_begin` function, which decides from the
//! request alone whether anything is done at all: it hands back either the
//! reply that refuses the request or the first request of the operation. A
//! request that names no user starts nothing; the administrator's routes
//! start nothing for anyone else.
//!
//! A route ends with the function of its own name, which turns what the
//! operation came to into the reply. A refusal is told apart from a missing
//! row, and both from a failure inside the service, which is reported with a
//! fixed message and without its cause.

use vstd::prelude::*;
use vstd::string::*;
use crate::auth::{get_user_id, is_admin_begin, is_admin_start, user_id_of, AdminStep};
use crate::cors::{add_headers, cors_headers, Body, Response};
use crate::errors::{forbidden, is_failure, json_error, json_server_error};
use crate::http::{header_pairs, HttpRequest};
use crate::keto::{listing_request, request_of, CheckState, KetoClient};
use crate::kratos::KratosClient;
use crate::models::{AdminTodo, CreateTodo, CreateUser, Todo, UpdateTodo, User};
use crate::supabase::{remove_request, select_request, SupabaseClient};
use crate::text::{parse_i64, parsed_i64, trim, trimmed};
use crate::todo_repo::{
    all_rows_query, insert_todo, owned_query, ownership_check, todos, AdminDeleteState,
    AdminListState, CreateState, DeleteState, Deleted, ListState, RepoError, Swept, TodoRepo,
    UpdateState,
};
use crate::user_repo::{all_users_query, insert_user, users, UserRepo};

verus! {

/// `r` carries `value` with the given status.
pub open spec fn is_success<T>(r: Response<T>, status: u16, value: T) -> bool {
    &&& r.status == status
    &&& r.body == Body::Value(value)
    &&& header_pairs(r.headers@) == cors_headers()
}

/// `r` carries the plain text `text` with status 200.
pub open spec fn is_plain<T>(r: Response<T>, text: Seq<char>) -> bool {
    &&& r.status == 200
    &&& match r.body {
        Body::Text(t) => t@ == text,
        _ => false,
    }
    &&& header_pairs(r.headers@) == cors_headers()
}

/// `r` reports a failure inside the service.
pub open spec fn is_internal_error<T>(r: Response<T>) -> bool {
    is_failure(r, 500, "message"@, "Internal server error"@)
}

/// `r` reports why an operation on a row failed: a refusal with status 403,
/// a missing row with status 404, anything else as a failure inside the
/// service.
pub open spec fn is_row_failure<T>(r: Response<T>, e: RepoError) -> bool {
    match e {
        RepoError::Forbidden => is_failure(r, 403, "error"@, "Forbidden"@),
        RepoError::NotFound => is_failure(r, 404, "error"@, "Todo not found"@),
        _ => is_internal_error(r),
    }
}

fn success<T>(status: u16, value: T) -> (r: Response<T>)
    ensures
        is_success(r, status, value),
{
    let res = Response { status, headers: Vec::new(), body: Body::Value(value) };
    assert(header_pairs(res.headers@) =~= Seq::<(Seq<char>, Seq<char>)>::empty());
    let r = add_headers(res);
    assert(header_pairs(r.headers@) =~= cors_headers());
    r
}

fn plain<T>(text: &str) -> (r: Response<T>)
    ensures
        is_plain(r, text@),
{
    let res = Response { status: 200, headers: Vec::new(), body: Body::Text(text.to_owned()) };
    assert(header_pairs(res.headers@) =~= Seq::<(Seq<char>, Seq<char>)>::empty());
    let r = add_headers(res);
    assert(header_pairs(r.headers@) =~= cors_headers());
    r
}

fn internal_error<T>() -> (r: Response<T>)
    ensures
        is_internal_error(r),
{
    json_server_error("Internal server error")
}

fn row_failure<T>(e: RepoError) -> (r: Response<T>)
    ensures
        is_row_failure(r, e),
{
    match e {
        RepoError::Forbidden => forbidden(),
        RepoError::NotFound => json_error("Todo not found", 404),
        _ => internal_error(),
    }
}

/// The acting user of a request, or the reply to a request that names none:
/// status 401, which is not a refusal.
pub fn require_user<T>(header: Option<&str>) -> (r: Result<String, Response<T>>)
    ensures
        match user_id_of(
            match header {
                Some(h) => Some(h@),
                None => None,
            },
        ) {
            Some(u) => r is Ok && r->Ok_0@ == u,
            None => r is Err && is_failure(r->Err_0, 401, "error"@, "Missing X-User-Id"@),
        },
{
    match get_user_id(header) {
        Some(u) => Ok(u),
        None => Err(json_error("Missing X-User-Id", 401)),
    }
}

/// Lets an administrator pass and refuses everyone else.
pub fn require_admin<T>(is_admin: bool) -> (r: Result<(), Response<T>>)
    ensures
        is_admin ==> r is Ok,
        !is_admin ==> r is Err && is_failure(r->Err_0, 403, "error"@, "Forbidden"@),
{
    if is_admin {
        Ok(())
    } else {
        Err(forbidden())
    }
}

/// The row id that a path names, or the reply to a path that names none.
pub fn require_id<T>(param: Option<&str>) -> (r: Result<i64, Response<T>>)
    ensures
        match param {
            Some(p) => match parsed_i64(p@) {
                Some(id) => r == Ok::<i64, Response<T>>(id),
                None => r is Err && is_internal_error(r->Err_0),
            },
            None => r is Err && is_internal_error(r->Err_0),
        },
{
    match param {
        Some(p) => match parse_i64(p) {
            Some(id) => Ok(id),
            None => Err(internal_error()),
        },
        None => Err(internal_error()),
    }
}

/// A text counts as blank when nothing but white space is in it.
pub open spec fn is_blank(s: Seq<char>) -> bool {
    trimmed(s).len() == 0
}

/// Passes the payload of a new todo, or answers that its title is missing.
pub fn require_title(body: &CreateTodo) -> (r: Result<(), Response<Todo>>)
    ensures
        !is_blank(body.title@) ==> r is Ok,
        is_blank(body.title@) ==> r is Err && is_failure(
            r->Err_0,
            400,
            "error"@,
            "Title is required"@,
        ),
{
    if trim(body.title.as_str()).as_str().unicode_len() == 0 {
        Err(json_error("Title is required", 400))
    } else {
        Ok(())
    }
}

/// Passes the payload of a new user, or answers what is wrong with it:
/// `None` stands for a body that is not the JSON of such a payload.
pub fn require_name(body: &Option<CreateUser>) -> (r: Result<(), Response<User>>)
    ensures
        match *body {
            None => r is Err && is_failure(r->Err_0, 400, "error"@, "Invalid JSON"@),
            Some(b) => if is_blank(b.name@) {
                r is Err && is_failure(r->Err_0, 400, "error"@, "Name is required"@)
            } else {
                r is Ok
            },
        },
{
    match body {
        None => Err(json_error("Invalid JSON", 400)),
        Some(b) => {
            if trim(b.name.as_str()).as_str().unicode_len() == 0 {
                Err(json_error("Name is required", 400))
            } else {
                Ok(())
            }
        },
    }
}

/// The service is up: says so, and names the application.
pub fn health_check(app_name: &str) -> (r: Response<()>)
    ensures
        r.status == 200,
        match r.body {
            Body::Text(t) => t@ == "OK from "@ + app_name@,
            _ => false,
        },
        header_pairs(r.headers@) == seq![("x-backend"@, "workers-rust"@)] + cors_headers(),
{
    let mut text = String::from_str("OK from ");
    text.append(app_name);
    let mut headers: Vec<(String, String)> = Vec::new();
    headers.push((String::from_str("x-backend"), String::from_str("workers-rust")));
    assert(header_pairs(headers@) =~= seq![("x-backend"@, "workers-rust"@)]);
    add_headers(Response { status: 200, headers, body: Body::Text(text) })
}

/// The reply to a listing of one's own todos.
pub fn list_todos(result: Result<Vec<Todo>, RepoError>) -> (r: Response<Vec<Todo>>)
    ensures
        match result {
            Ok(todos) => is_success(r, 200, todos),
            Err(_) => is_internal_error(r),
        },
{
    match result {
        Ok(todos) => success(200, todos),
        Err(_) => internal_error(),
    }
}

/// The reply to the creation of a todo. A row whose owner could not be
/// recorded is reported as a failure.
pub fn create_todo(result: Result<Todo, RepoError>) -> (r: Response<Todo>)
    ensures
        match result {
            Ok(todo) => is_success(r, 201, todo),
            Err(_) => is_internal_error(r),
        },
{
    match result {
        Ok(todo) => success(201, todo),
        Err(_) => internal_error(),
    }
}

/// The reply to an update.
pub fn update_todo(result: Result<Todo, RepoError>) -> (r: Response<Todo>)
    ensures
        match result {
            Ok(todo) => is_success(r, 200, todo),
            Err(e) => is_row_failure(r, e),
        },
{
    match result {
        Ok(todo) => success(200, todo),
        Err(e) => row_failure(e),
    }
}

/// The reply to a deletion. A warning that came with the success does not
/// show in it.
pub fn delete_todo(result: Result<Deleted, RepoError>) -> (r: Response<()>)
    ensures
        match result {
            Ok(_) => is_plain(r, "deleted"@),
            Err(e) => is_row_failure(r, e),
        },
{
    match result {
        Ok(_) => plain("deleted"),
        Err(e) => row_failure(e),
    }
}

/// The reply to the administrator's listing.
pub fn admin_list_todos(result: Result<Vec<AdminTodo>, RepoError>) -> (r: Response<Vec<AdminTodo>>)
    ensures
        match result {
            Ok(todos) => is_success(r, 200, todos),
            Err(_) => is_internal_error(r),
        },
{
    match result {
        Ok(todos) => success(200, todos),
        Err(_) => internal_error(),
    }
}

/// The reply to the administrator's deletion.
pub fn admin_delete_todo(result: Result<Swept, RepoError>) -> (r: Response<()>)
    ensures
        match result {
            Ok(_) => is_plain(r, "deleted"@),
            Err(_) => is_internal_error(r),
        },
{
    match result {
        Ok(_) => plain("deleted"),
        Err(_) => internal_error(),
    }
}

/// The reply to a listing of users.
pub fn list_users(result: Result<Vec<User>, RepoError>) -> (r: Response<Vec<User>>)
    ensures
        match result {
            Ok(users) => is_success(r, 200, users),
            Err(_) => is_internal_error(r),
        },
{
    match result {
        Ok(users) => success(200, users),
        Err(_) => internal_error(),
    }
}

/// The reply to the creation of a user.
pub fn create_user(result: Result<User, RepoError>) -> (r: Response<User>)
    ensures
        match result {
            Ok(user) => is_success(r, 201, user),
            Err(_) => is_internal_error(r),
        },
{
    match result {
        Ok(user) => success(201, user),
        Err(_) => internal_error(),
    }
}

/// The acting user that a request names in its `X-User-Id` header.
pub open spec fn acting_user(header: Option<&str>) -> Option<Seq<char>> {
    user_id_of(
        match header {
            Some(h) => Some(h@),
            None => None,
        },
    )
}

/// The row id that a path parameter names.
pub open spec fn row_id(param: Option<&str>) -> Option<i64> {
    match param {
        Some(p) => parsed_i64(p@),
        None => None,
    }
}

/// `r` refuses a request that does not say who is acting: status 401.
pub open spec fn is_unauthenticated<T>(r: Response<T>) -> bool {
    is_failure(r, 401, "error"@, "Missing X-User-Id"@)
}

/// `r` refuses a caller who may not do what was asked: status 403.
pub open spec fn is_forbidden<T>(r: Response<T>) -> bool {
    is_failure(r, 403, "error"@, "Forbidden"@)
}

/// Starts the route that lists one's own todos. A request that names no
/// user is answered 401 and nothing is sent.
pub fn list_todos_begin(header: Option<&str>, keto: &Option<KetoClient>) -> (r: Result<
    (String, ListState, HttpRequest),
    Response<Vec<Todo>>,
>)
    ensures
        match acting_user(header) {
            None => r is Err && is_unauthenticated(r->Err_0),
            Some(user) => match *keto {
                None => r is Err && is_internal_error(r->Err_0),
                Some(k) => match r {
                    Ok((u, state, request)) => u@ == user && state == ListState::Owned && request@
                        == listing_request(k.read_url@, owned_query(user)),
                    Err(_) => false,
                },
            },
        },
{
    let user = match require_user(header) {
        Ok(u) => u,
        Err(reply) => {
            return Err(reply);
        },
    };
    match keto {
        None => Err(internal_error()),
        Some(k) => {
            let (state, request) = TodoRepo::list_begin(k, user.as_str());
            Ok((user, state, request))
        },
    }
}

/// Starts the route that creates a todo. `None` for the payload stands for
/// a body that is not the JSON of one. Nothing is sent unless the request
/// names a user and a title.
pub fn create_todo_begin(
    header: Option<&str>,
    body: &Option<CreateTodo>,
    store: &Option<SupabaseClient>,
) -> (r: Result<(String, CreateState, HttpRequest), Response<Todo>>)
    ensures
        match acting_user(header) {
            None => r is Err && is_unauthenticated(r->Err_0),
            Some(user) => match *body {
                None => r is Err && is_internal_error(r->Err_0),
                Some(b) => if is_blank(b.title@) {
                    r is Err && is_failure(r->Err_0, 400, "error"@, "Title is required"@)
                } else {
                    match *store {
                        None => r is Err && is_internal_error(r->Err_0),
                        Some(s) => match r {
                            Ok((u, state, request)) => u@ == user && state == CreateState::Row
                                && request@ == insert_todo(s, b.title@),
                            Err(_) => false,
                        },
                    }
                },
            },
        },
{
    let user = match require_user(header) {
        Ok(u) => u,
        Err(reply) => {
            return Err(reply);
        },
    };
    let body = match body {
        Some(b) => b,
        None => {
            return Err(internal_error());
        },
    };
    match require_title(body) {
        Ok(_) => {},
        Err(reply) => {
            return Err(reply);
        },
    }
    match store {
        None => Err(internal_error()),
        Some(s) => {
            let (state, request) = TodoRepo::create_begin(s, body.title.as_str());
            Ok((user, state, request))
        },
    }
}

/// Starts the route that updates a todo. `None` for the payload stands for
/// a body that is not the JSON of one. The first request, if any, is the
/// ownership check.
pub fn update_todo_begin(
    header: Option<&str>,
    id_param: Option<&str>,
    body: &Option<UpdateTodo>,
    keto: &Option<KetoClient>,
) -> (r: Result<(String, i64, bool, UpdateState, HttpRequest), Response<Todo>>)
    ensures
        match acting_user(header) {
            None => r is Err && is_unauthenticated(r->Err_0),
            Some(user) => match (row_id(id_param), *body, *keto) {
                (Some(id), Some(b), Some(k)) => match r {
                    Ok((u, i, completed, state, request)) => {
                        &&& u@ == user
                        &&& i == id
                        &&& completed == b.completed
                        &&& state == UpdateState::Check(CheckState::Candidate(0))
                        &&& request@ == request_of(
                            k.read_url@,
                            ownership_check(user, id),
                            CheckState::Candidate(0),
                        )
                    },
                    Err(_) => false,
                },
                _ => r is Err && is_internal_error(r->Err_0),
            },
        },
{
    let user = match require_user(header) {
        Ok(u) => u,
        Err(reply) => {
            return Err(reply);
        },
    };
    let id = match require_id(id_param) {
        Ok(id) => id,
        Err(reply) => {
            return Err(reply);
        },
    };
    match (body, keto) {
        (Some(b), Some(k)) => {
            let (state, request) = TodoRepo::update_begin(k, user.as_str(), id);
            Ok((user, id, b.completed, state, request))
        },
        _ => Err(internal_error()),
    }
}

/// Starts the route that deletes a todo. A request that names no user is
/// answered 401 and starts no deletion. The first request, if any, is the
/// ownership check.
pub fn delete_todo_begin(
    header: Option<&str>,
    id_param: Option<&str>,
    keto: &Option<KetoClient>,
) -> (r: Result<(String, i64, DeleteState, HttpRequest), Response<()>>)
    ensures
        match acting_user(header) {
            None => r is Err && is_unauthenticated(r->Err_0),
            Some(user) => match (row_id(id_param), *keto) {
                (Some(id), Some(k)) => match r {
                    Ok((u, i, state, request)) => {
                        &&& u@ == user
                        &&& i == id
                        &&& state == DeleteState::Check(CheckState::Candidate(0))
                        &&& request@ == request_of(
                            k.read_url@,
                            ownership_check(user, id),
                            CheckState::Candidate(0),
                        )
                    },
                    Err(_) => false,
                },
                _ => r is Err && is_internal_error(r->Err_0),
            },
        },
{
    let user = match require_user(header) {
        Ok(u) => u,
        Err(reply) => {
            return Err(reply);
        },
    };
    let id = match require_id(id_param) {
        Ok(id) => id,
        Err(reply) => {
            return Err(reply);
        },
    };
    match keto {
        Some(k) => {
            let (state, request) = TodoRepo::delete_begin(k, user.as_str(), id);
            Ok((user, id, state, request))
        },
        None => Err(internal_error()),
    }
}

/// Starts an administrator's route: a request that names no user is
/// answered 401; for every other the question whether the user is an
/// administrator is put first.
pub fn admin_begin<T>(
    header: Option<&str>,
    kratos: &Option<KratosClient>,
    keto: &Option<KetoClient>,
) -> (r: Result<(String, AdminStep), Response<T>>)
    ensures
        match acting_user(header) {
            None => r is Err && is_unauthenticated(r->Err_0),
            Some(user) => match r {
                Ok((u, step)) => u@ == user && is_admin_start(step, *kratos, *keto, user),
                Err(_) => false,
            },
        },
{
    let user = match require_user(header) {
        Ok(u) => u,
        Err(reply) => {
            return Err(reply);
        },
    };
    let step = is_admin_begin(kratos, keto, user.as_str());
    Ok((user, step))
}

/// Starts the administrator's listing once the question whether the caller
/// is an administrator is answered. Everyone else is answered 403, and the
/// listing is not started.
pub fn admin_list_todos_begin(is_admin: bool, store: &Option<SupabaseClient>) -> (r: Result<
    (AdminListState, HttpRequest),
    Response<Vec<AdminTodo>>,
>)
    ensures
        !is_admin ==> r is Err && is_forbidden(r->Err_0),
        is_admin ==> match *store {
            None => r is Err && is_internal_error(r->Err_0),
            Some(s) => match r {
                Ok((state, request)) => state == AdminListState::Rows && request@
                    == select_request(s.base_url@, s.api_key@, todos(), all_rows_query()),
                Err(_) => false,
            },
        },
{
    match require_admin(is_admin) {
        Ok(_) => {},
        Err(reply) => {
            return Err(reply);
        },
    }
    match store {
        None => Err(internal_error()),
        Some(s) => Ok(TodoRepo::list_all_with_owner_begin(s)),
    }
}

/// Starts the administrator's deletion once the question whether the caller
/// is an administrator is answered. Everyone else is answered 403, whatever
/// the row: the deletion without an ownership check is not started.
pub fn admin_delete_todo_begin(
    is_admin: bool,
    id_param: Option<&str>,
    store: &Option<SupabaseClient>,
) -> (r: Result<(i64, AdminDeleteState, HttpRequest), Response<()>>)
    ensures
        !is_admin ==> r is Err && is_forbidden(r->Err_0),
        is_admin ==> match (row_id(id_param), *store) {
            (Some(id), Some(s)) => match r {
                Ok((i, state, request)) => i == id && state == AdminDeleteState::Row && request@
                    == remove_request(s.base_url@, s.api_key@, todos(), id),
                Err(_) => false,
            },
            _ => r is Err && is_internal_error(r->Err_0),
        },
{
    match require_admin(is_admin) {
        Ok(_) => {},
        Err(reply) => {
            return Err(reply);
        },
    }
    let id = match require_id(id_param) {
        Ok(id) => id,
        Err(reply) => {
            return Err(reply);
        },
    };
    match store {
        None => Err(internal_error()),
        Some(s) => {
            let (state, request) = TodoRepo::delete_any_begin(s, id);
            Ok((id, state, request))
        },
    }
}

/// Starts the route that lists the users.
pub fn list_users_begin(store: &Option<SupabaseClient>) -> (r: Result<
    HttpRequest,
    Response<Vec<User>>,
>)
    ensures
        match *store {
            None => r is Err && is_internal_error(r->Err_0),
            Some(s) => r is Ok && r->Ok_0@ == select_request(
                s.base_url@,
                s.api_key@,
                users(),
                all_users_query(),
            ),
        },
{
    match store {
        None => Err(internal_error()),
        Some(s) => Ok(UserRepo::list_request(s)),
    }
}

/// Starts the route that creates a user. `None` for the payload stands for
/// a body that is not the JSON of one.
pub fn create_user_begin(body: &Option<CreateUser>, store: &Option<SupabaseClient>) -> (r: Result<
    HttpRequest,
    Response<User>,
>)
    ensures
        match *body {
            None => r is Err && is_failure(r->Err_0, 400, "error"@, "Invalid JSON"@),
            Some(b) => if is_blank(b.name@) {
                r is Err && is_failure(r->Err_0, 400, "error"@, "Name is required"@)
            } else {
                match *store {
                    None => r is Err && is_internal_error(r->Err_0),
                    Some(s) => r is Ok && r->Ok_0@ == insert_user(s, b.name@),
                }
            },
        },
{
    match require_name(body) {
        Ok(_) => {},
        Err(reply) => {
            return Err(reply);
        },
    }
    match (body, store) {
        (Some(b), Some(s)) => Ok(UserRepo::create_request(s, b.name.as_str())),
        _ => Err(internal_error()),
    }
}

} // verus!

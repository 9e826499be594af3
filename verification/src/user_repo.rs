//! User rows. They are not owned by anyone, so each operation is one call to
//! the record store.

use vstd::prelude::*;
use vstd::string::*;
use crate::http::{Fetched, HttpRequest, RequestModel};
use crate::json::{empty_object, json_rendered, set_member, single, text_value, JsonModel};
use crate::models::User;
use crate::supabase::{insert_request, rows_result, select_request, SupabaseClient};
use crate::todo_repo::RepoError;

verus! {

/// The table of users.
pub open spec fn users() -> Seq<char> {
    "users"@
}

/// The columns and the order of a listing of users: highest id first.
pub open spec fn all_users_query() -> Seq<char> {
    "select=id,name&order=id.desc"@
}

/// The request that inserts a user with the given name.
pub open spec fn insert_user(store: SupabaseClient, name: Seq<char>) -> RequestModel {
    insert_request(
        store.base_url@,
        store.api_key@,
        users(),
        json_rendered(single("name"@, JsonModel::Text(name))),
    )
}

/// What a listing of users comes to.
pub open spec fn listed_users(f: Fetched, rows: Option<Vec<User>>) -> Result<Vec<User>, RepoError> {
    match rows_result(f, rows, false) {
        Ok(found) => Ok(found),
        Err(e) => Err(RepoError::Store(e)),
    }
}

/// What the creation of a user comes to: the first row that the store
/// returns.
pub open spec fn created_user(f: Fetched, rows: Option<Vec<User>>) -> Result<User, RepoError> {
    match rows_result(f, rows, true) {
        Ok(found) => if found@.len() == 0 {
            Err(RepoError::NoRowReturned)
        } else {
            Ok(found@[0])
        },
        Err(e) => Err(RepoError::Store(e)),
    }
}

/// The operations on users.
pub struct UserRepo;

impl UserRepo {
    /// The request that lists all users.
    pub fn list_request(store: &SupabaseClient) -> (r: HttpRequest)
        ensures
            r@ == select_request(store.base_url@, store.api_key@, users(), all_users_query()),
    {
        store.get_request("users", "select=id,name&order=id.desc")
    }

    /// Reads the reply to a listing of users, whose body reads as `rows`.
    pub fn list(fetched: &Fetched, rows: Option<Vec<User>>) -> (r: Result<Vec<User>, RepoError>)
        ensures
            r == listed_users(*fetched, rows),
    {
        match SupabaseClient::get(fetched, rows) {
            Ok(found) => Ok(found),
            Err(e) => Err(RepoError::Store(e)),
        }
    }

    /// The request that creates a user with the given name.
    pub fn create_request(store: &SupabaseClient, name: &str) -> (r: HttpRequest)
        ensures
            r@ == insert_user(*store, name@),
    {
        let mut d = empty_object();
        set_member(&mut d, "name", text_value(name));
        store.post_request("users", &d)
    }

    /// Reads the reply to the creation of a user, whose body reads as
    /// `rows`.
    pub fn create(fetched: &Fetched, rows: Option<Vec<User>>) -> (r: Result<User, RepoError>)
        ensures
            r == created_user(*fetched, rows),
    {
        match SupabaseClient::post(fetched, rows) {
            Ok(found) => {
                let mut found = found;
                if found.len() == 0 {
                    Err(RepoError::NoRowReturned)
                } else {
                    Ok(found.remove(0))
                }
            },
            Err(e) => Err(RepoError::Store(e)),
        }
    }
}

} // verus!

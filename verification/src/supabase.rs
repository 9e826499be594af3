//! The client of the record store.
//!
//! Rows are read and written over a REST interface. This module builds the
//! requests and judges the replies by their status. Turning a reply's body
//! into rows is the caller's part: it passes the rows in beside the reply,
//! or `None` where the body does not read as a list of rows.

use vstd::prelude::*;
use vstd::string::*;
use crate::http::{
    first_of, header_pairs, or_else, Fetched, HttpMethod, HttpRequest, RequestModel, ServiceError,
};
use crate::json::{json_model, json_rendered, render};
use crate::text::{render_i64, signed_decimal};

verus! {

/// Where the record store is reached, and the key that opens it.
#[derive(Clone, Debug)]
pub struct SupabaseClient {
    pub base_url: String,
    pub api_key: String,
}

/// The headers of every request to the store.
pub open spec fn store_headers(api_key: Seq<char>) -> Seq<(Seq<char>, Seq<char>)> {
    seq![
        ("apikey"@, api_key),
        ("Authorization"@, "Bearer "@ + api_key),
        ("Content-Type"@, "application/json"@),
    ]
}

/// The headers of a request that wants the affected rows back.
pub open spec fn returning_headers(api_key: Seq<char>) -> Seq<(Seq<char>, Seq<char>)> {
    store_headers(api_key).push(("Prefer"@, "return=representation"@))
}

/// The address of a table.
pub open spec fn table_url(base_url: Seq<char>, table: Seq<char>) -> Seq<char> {
    base_url + "/rest/v1/"@ + table
}

/// The address of the row `id` of a table.
pub open spec fn row_url(base_url: Seq<char>, table: Seq<char>, id: i64) -> Seq<char> {
    table_url(base_url, table) + "?id=eq."@ + signed_decimal(id as int)
}

/// The request that selects rows of a table.
pub open spec fn select_request(
    base_url: Seq<char>,
    api_key: Seq<char>,
    table: Seq<char>,
    query: Seq<char>,
) -> RequestModel {
    RequestModel {
        method: HttpMethod::Get,
        url: table_url(base_url, table) + "?"@ + query,
        headers: store_headers(api_key),
        body: None,
    }
}

/// The request that inserts a row.
pub open spec fn insert_request(
    base_url: Seq<char>,
    api_key: Seq<char>,
    table: Seq<char>,
    body: Seq<char>,
) -> RequestModel {
    RequestModel {
        method: HttpMethod::Post,
        url: table_url(base_url, table),
        headers: returning_headers(api_key),
        body: Some(body),
    }
}

/// The request that changes the row `id`.
pub open spec fn update_request(
    base_url: Seq<char>,
    api_key: Seq<char>,
    table: Seq<char>,
    id: i64,
    body: Seq<char>,
) -> RequestModel {
    RequestModel {
        method: HttpMethod::Patch,
        url: row_url(base_url, table, id),
        headers: returning_headers(api_key),
        body: Some(body),
    }
}

/// The request that removes the row `id`.
pub open spec fn remove_request(
    base_url: Seq<char>,
    api_key: Seq<char>,
    table: Seq<char>,
    id: i64,
) -> RequestModel {
    RequestModel {
        method: HttpMethod::Delete,
        url: row_url(base_url, table, id),
        headers: store_headers(api_key),
        body: None,
    }
}

/// The request that removes the row `id` and asks for what was removed.
pub open spec fn remove_returning_request(
    base_url: Seq<char>,
    api_key: Seq<char>,
    table: Seq<char>,
    id: i64,
) -> RequestModel {
    RequestModel {
        method: HttpMethod::Delete,
        url: row_url(base_url, table, id),
        headers: returning_headers(api_key),
        body: None,
    }
}

/// What a reply that should carry rows comes to: the rows, where the status
/// is 200, or 201 if `created` says that this counts too, and the body read
/// as rows; an error otherwise.
pub open spec fn rows_result<R>(f: Fetched, rows: Option<Vec<R>>, created: bool) -> Result<
    Vec<R>,
    ServiceError,
> {
    match f {
        Fetched::Failed => Err(ServiceError::Unreachable),
        Fetched::Response(resp) => if resp.status == 200 || (created && resp.status == 201) {
            match rows {
                Some(found) => Ok(found),
                None => Err(ServiceError::Malformed),
            }
        } else {
            Err(ServiceError::Status(resp.status))
        },
    }
}

/// What the reply to a removal comes to.
pub open spec fn removal_result(f: Fetched) -> Result<(), ServiceError> {
    match f {
        Fetched::Failed => Err(ServiceError::Unreachable),
        Fetched::Response(resp) => if resp.status == 200 || resp.status == 204 {
            Ok(())
        } else {
            Err(ServiceError::Status(resp.status))
        },
    }
}

fn read_rows<R>(fetched: &Fetched, rows: Option<Vec<R>>, created: bool) -> (r: Result<
    Vec<R>,
    ServiceError,
>)
    ensures
        r == rows_result(*fetched, rows, created),
{
    match fetched {
        Fetched::Failed => Err(ServiceError::Unreachable),
        Fetched::Response(resp) => {
            if resp.status == 200 || (created && resp.status == 201) {
                match rows {
                    Some(found) => Ok(found),
                    None => Err(ServiceError::Malformed),
                }
            } else {
                Err(ServiceError::Status(resp.status))
            }
        },
    }
}

impl SupabaseClient {
    /// A client for the store at the given base URL, with the given key.
    pub fn new(base_url: String, api_key: String) -> (r: Self)
        ensures
            r.base_url == base_url,
            r.api_key == api_key,
    {
        SupabaseClient { base_url, api_key }
    }

    /// Makes the client from what the environment holds: the URL under
    /// `DB_API_URL` as a plain variable, and the key under `DB_API_KEY` as
    /// a variable or else as a secret. Without either there is no client.
    pub fn from_env(
        url_var: Option<String>,
        key_var: Option<String>,
        key_secret: Option<String>,
    ) -> (r: Option<Self>)
        ensures
            r == match (url_var, or_else(key_var, key_secret)) {
                (Some(base_url), Some(api_key)) => Some(SupabaseClient { base_url, api_key }),
                _ => None,
            },
    {
        match (url_var, first_of(key_var, key_secret)) {
            (Some(base_url), Some(api_key)) => Some(SupabaseClient { base_url, api_key }),
            _ => None,
        }
    }

    /// The headers that every request to the store carries.
    pub fn get_headers(&self) -> (r: Vec<(String, String)>)
        ensures
            header_pairs(r@) == store_headers(self.api_key@),
    {
        let mut bearer = String::from_str("Bearer ");
        bearer.append(self.api_key.as_str());
        let mut h: Vec<(String, String)> = Vec::new();
        h.push((String::from_str("apikey"), self.api_key.clone()));
        h.push((String::from_str("Authorization"), bearer));
        h.push((String::from_str("Content-Type"), String::from_str("application/json")));
        assert(header_pairs(h@) =~= store_headers(self.api_key@));
        h
    }

    fn headers_returning(&self) -> (r: Vec<(String, String)>)
        ensures
            header_pairs(r@) == returning_headers(self.api_key@),
    {
        let mut h = self.get_headers();
        h.push((String::from_str("Prefer"), String::from_str("return=representation")));
        assert(header_pairs(h@) =~= returning_headers(self.api_key@));
        h
    }

    fn table_address(&self, table: &str) -> (r: String)
        ensures
            r@ == table_url(self.base_url@, table@),
    {
        let mut url = self.base_url.clone();
        url.append("/rest/v1/");
        url.append(table);
        url
    }

    fn row_address(&self, table: &str, id: i64) -> (r: String)
        ensures
            r@ == row_url(self.base_url@, table@, id),
    {
        let mut url = self.table_address(table);
        url.append("?id=eq.");
        url.append(render_i64(id).as_str());
        url
    }

    /// The request that selects rows of `table` by `query`.
    pub fn get_request(&self, table: &str, query: &str) -> (r: HttpRequest)
        ensures
            r@ == select_request(self.base_url@, self.api_key@, table@, query@),
    {
        let mut url = self.table_address(table);
        url.append("?");
        url.append(query);
        HttpRequest { method: HttpMethod::Get, url, headers: self.get_headers(), body: None }
    }

    /// Reads the reply to a selection: only status 200 carries rows.
    pub fn get<R>(fetched: &Fetched, rows: Option<Vec<R>>) -> (r: Result<Vec<R>, ServiceError>)
        ensures
            r == rows_result(*fetched, rows, false),
    {
        read_rows(fetched, rows, false)
    }

    /// The request that inserts the row that `body` describes and asks for
    /// it back.
    pub fn post_request(&self, table: &str, body: &serde_json::Value) -> (r: HttpRequest)
        ensures
            r@ == insert_request(
                self.base_url@,
                self.api_key@,
                table@,
                json_rendered(json_model(*body)),
            ),
    {
        HttpRequest {
            method: HttpMethod::Post,
            url: self.table_address(table),
            headers: self.headers_returning(),
            body: Some(render(body)),
        }
    }

    /// Reads the reply to an insertion: status 201 or 200 carries the new
    /// rows.
    pub fn post<R>(fetched: &Fetched, rows: Option<Vec<R>>) -> (r: Result<Vec<R>, ServiceError>)
        ensures
            r == rows_result(*fetched, rows, true),
    {
        read_rows(fetched, rows, true)
    }

    /// The request that applies `body` to the row `id` and asks for the
    /// changed row back.
    pub fn patch_request(&self, table: &str, id: i64, body: &serde_json::Value) -> (r: HttpRequest)
        ensures
            r@ == update_request(
                self.base_url@,
                self.api_key@,
                table@,
                id,
                json_rendered(json_model(*body)),
            ),
    {
        HttpRequest {
            method: HttpMethod::Patch,
            url: self.row_address(table, id),
            headers: self.headers_returning(),
            body: Some(render(body)),
        }
    }

    /// Reads the reply to a change: only status 200 carries the changed
    /// rows.
    pub fn patch<R>(fetched: &Fetched, rows: Option<Vec<R>>) -> (r: Result<Vec<R>, ServiceError>)
        ensures
            r == rows_result(*fetched, rows, false),
    {
        read_rows(fetched, rows, false)
    }

    /// The request that removes the row `id`.
    pub fn delete_request(&self, table: &str, id: i64) -> (r: HttpRequest)
        ensures
            r@ == remove_request(self.base_url@, self.api_key@, table@, id),
    {
        HttpRequest {
            method: HttpMethod::Delete,
            url: self.row_address(table, id),
            headers: self.get_headers(),
            body: None,
        }
    }

    /// The request that removes the row `id` and asks for the removed rows
    /// back, so that a row that was not there can be told from one that was.
    pub fn delete_returning_request(&self, table: &str, id: i64) -> (r: HttpRequest)
        ensures
            r@ == remove_returning_request(self.base_url@, self.api_key@, table@, id),
    {
        HttpRequest {
            method: HttpMethod::Delete,
            url: self.row_address(table, id),
            headers: self.headers_returning(),
            body: None,
        }
    }

    /// Reads the reply to a removal that asked for the removed rows: only
    /// status 200 carries them.
    pub fn delete_returning<R>(fetched: &Fetched, rows: Option<Vec<R>>) -> (r: Result<
        Vec<R>,
        ServiceError,
    >)
        ensures
            r == rows_result(*fetched, rows, false),
    {
        read_rows(fetched, rows, false)
    }

    /// Reads the reply to a removal: status 200 or 204 means the row is
    /// gone.
    pub fn delete(fetched: &Fetched) -> (r: Result<(), ServiceError>)
        ensures
            r == removal_result(*fetched),
    {
        match fetched {
            Fetched::Failed => Err(ServiceError::Unreachable),
            Fetched::Response(resp) => {
                if resp.status == 200 || resp.status == 204 {
                    Ok(())
                } else {
                    Err(ServiceError::Status(resp.status))
                }
            },
        }
    }
}

} // verus!

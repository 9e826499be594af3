use todo_authz::http::{Fetched, HttpMethod, HttpResponse, ServiceError};
use todo_authz::models::{Todo, User};
use todo_authz::supabase::SupabaseClient;
use todo_authz::todo_repo::RepoError;
use todo_authz::user_repo::UserRepo;

fn store() -> SupabaseClient {
    SupabaseClient::new("http://db".to_string(), "k3y".to_string())
}

fn reply(status: u16) -> Fetched {
    Fetched::Response(HttpResponse { status, body: String::new() })
}

fn pair(a: &str, b: &str) -> (String, String) {
    (a.to_string(), b.to_string())
}

fn plain_headers() -> Vec<(String, String)> {
    vec![
        pair("apikey", "k3y"),
        pair("Authorization", "Bearer k3y"),
        pair("Content-Type", "application/json"),
    ]
}

fn returning_headers() -> Vec<(String, String)> {
    let mut h = plain_headers();
    h.push(pair("Prefer", "return=representation"));
    h
}

fn todo(id: i64) -> Todo {
    Todo { id, title: format!("t{}", id), completed: false, created_at: "2024".to_string() }
}

#[test]
fn store_headers_carry_the_key() {
    assert_eq!(store().get_headers(), plain_headers());
}

#[test]
fn select_request() {
    let req = store().get_request("todos", "select=id&order=id.desc");
    assert_eq!(req.method, HttpMethod::Get);
    assert_eq!(req.url, "http://db/rest/v1/todos?select=id&order=id.desc");
    assert_eq!(req.headers, plain_headers());
    assert!(req.body.is_none());
}

#[test]
fn insert_request() {
    let body: serde_json::Value = serde_json::from_str(r#"{"title":"x"}"#).unwrap();
    let req = store().post_request("todos", &body);
    assert_eq!(req.method, HttpMethod::Post);
    assert_eq!(req.url, "http://db/rest/v1/todos");
    assert_eq!(req.headers, returning_headers());
    assert_eq!(req.body.as_deref(), Some(r#"{"title":"x"}"#));
}

#[test]
fn update_request() {
    let body: serde_json::Value = serde_json::from_str(r#"{"completed":true}"#).unwrap();
    let req = store().patch_request("todos", 12, &body);
    assert_eq!(req.method, HttpMethod::Patch);
    assert_eq!(req.url, "http://db/rest/v1/todos?id=eq.12");
    assert_eq!(req.headers, returning_headers());
    assert_eq!(req.body.as_deref(), Some(r#"{"completed":true}"#));
    let req = store().patch_request("todos", -3, &body);
    assert_eq!(req.url, "http://db/rest/v1/todos?id=eq.-3");
}

#[test]
fn remove_request() {
    let req = store().delete_request("todos", 12);
    assert_eq!(req.method, HttpMethod::Delete);
    assert_eq!(req.url, "http://db/rest/v1/todos?id=eq.12");
    assert_eq!(req.headers, plain_headers());
    assert!(req.body.is_none());
}

#[test]
fn remove_request_that_asks_for_the_rows() {
    let req = store().delete_returning_request("todos", 12);
    assert_eq!(req.method, HttpMethod::Delete);
    assert_eq!(req.url, "http://db/rest/v1/todos?id=eq.12");
    assert_eq!(req.headers, returning_headers());
    assert!(req.body.is_none());
    let gone = SupabaseClient::delete_returning(&reply(200), Some(vec![todo(12)])).unwrap();
    assert_eq!(gone.len(), 1);
    assert!(SupabaseClient::delete_returning(&reply(200), Some(Vec::<Todo>::new())).unwrap().is_empty());
    assert_eq!(
        SupabaseClient::delete_returning(&reply(204), Some(vec![todo(12)])).unwrap_err(),
        ServiceError::Status(204)
    );
    assert_eq!(
        SupabaseClient::delete_returning::<Todo>(&reply(200), None).unwrap_err(),
        ServiceError::Malformed
    );
}

#[test]
fn rows_come_only_with_the_right_status() {
    let ids = |r: Result<Vec<Todo>, ServiceError>| r.map(|v| v.iter().map(|t| t.id).collect::<Vec<_>>());
    assert_eq!(ids(SupabaseClient::get(&reply(200), Some(vec![todo(1), todo(2)]))), Ok(vec![1, 2]));
    assert_eq!(ids(SupabaseClient::get(&reply(201), Some(vec![todo(1)]))), Err(ServiceError::Status(201)));
    assert_eq!(ids(SupabaseClient::get(&reply(200), None)), Err(ServiceError::Malformed));
    assert_eq!(ids(SupabaseClient::get(&reply(500), None)), Err(ServiceError::Status(500)));
    assert_eq!(ids(SupabaseClient::get(&Fetched::Failed, Some(vec![]))), Err(ServiceError::Unreachable));
    assert_eq!(ids(SupabaseClient::post(&reply(201), Some(vec![todo(3)]))), Ok(vec![3]));
    assert_eq!(ids(SupabaseClient::post(&reply(200), Some(vec![todo(3)]))), Ok(vec![3]));
    assert_eq!(ids(SupabaseClient::post(&reply(204), Some(vec![]))), Err(ServiceError::Status(204)));
    assert_eq!(ids(SupabaseClient::post(&reply(201), None)), Err(ServiceError::Malformed));
    assert_eq!(ids(SupabaseClient::patch(&reply(200), Some(vec![]))), Ok(vec![]));
    assert_eq!(ids(SupabaseClient::patch(&reply(201), Some(vec![]))), Err(ServiceError::Status(201)));
}

#[test]
fn removal_counts_with_200_or_204() {
    assert_eq!(SupabaseClient::delete(&reply(200)), Ok(()));
    assert_eq!(SupabaseClient::delete(&reply(204)), Ok(()));
    assert_eq!(SupabaseClient::delete(&reply(404)), Err(ServiceError::Status(404)));
    assert_eq!(SupabaseClient::delete(&Fetched::Failed), Err(ServiceError::Unreachable));
}

#[test]
fn store_client_from_environment() {
    let c = SupabaseClient::from_env(Some("u".into()), None, Some("s".into())).unwrap();
    assert_eq!(c.base_url, "u");
    assert_eq!(c.api_key, "s");
    let c = SupabaseClient::from_env(Some("u".into()), Some("v".into()), Some("s".into())).unwrap();
    assert_eq!(c.api_key, "v");
    assert!(SupabaseClient::from_env(None, Some("v".into()), None).is_none());
    assert!(SupabaseClient::from_env(Some("u".into()), None, None).is_none());
}

#[test]
fn users_are_listed_highest_id_first() {
    let req = UserRepo::list_request(&store());
    assert_eq!(req.url, "http://db/rest/v1/users?select=id,name&order=id.desc");
    let users = vec![User { id: 2, name: "b".into() }, User { id: 1, name: "a".into() }];
    let got = UserRepo::list(&reply(200), Some(users)).unwrap();
    assert_eq!(got.iter().map(|u| u.id).collect::<Vec<_>>(), vec![2, 1]);
    assert_eq!(UserRepo::list(&reply(500), None).unwrap_err(), RepoError::Store(ServiceError::Status(500)));
    assert_eq!(UserRepo::list(&reply(200), None).unwrap_err(), RepoError::Store(ServiceError::Malformed));
}

#[test]
fn user_is_created_from_first_row() {
    let req = UserRepo::create_request(&store(), "Ann");
    assert_eq!(req.method, HttpMethod::Post);
    assert_eq!(req.url, "http://db/rest/v1/users");
    assert_eq!(req.body.as_deref(), Some(r#"{"name":"Ann"}"#));
    let rows = vec![User { id: 5, name: "Ann".into() }, User { id: 6, name: "Bob".into() }];
    let u = UserRepo::create(&reply(201), Some(rows)).unwrap();
    assert_eq!(u.id, 5);
    assert_eq!(u.name, "Ann");
    assert_eq!(UserRepo::create(&reply(201), Some(vec![])).unwrap_err(), RepoError::NoRowReturned);
    assert_eq!(
        UserRepo::create(&reply(400), Some(vec![])).unwrap_err(),
        RepoError::Store(ServiceError::Status(400))
    );
}

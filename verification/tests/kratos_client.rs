use todo_authz::http::{Fetched, HttpMethod, HttpResponse, ServiceError};
use todo_authz::kratos::{read_email, read_role, IdentityStep, KratosClient};

fn client() -> KratosClient {
    KratosClient::new("http://kratos:4434".to_string())
}

fn reply(status: u16, body: &str) -> Fetched {
    Fetched::Response(HttpResponse { status, body: body.to_string() })
}

fn doc(text: &str) -> serde_json::Value {
    serde_json::from_str(text).unwrap()
}

fn done(step: IdentityStep) -> Result<serde_json::Value, ServiceError> {
    match step {
        IdentityStep::Done(r) => r,
        IdentityStep::Send(i, _) => panic!("still waiting under path {}", i),
    }
}

#[test]
fn identity_is_asked_under_admin_path_first() {
    let (i, req) = client().get_identity_begin("u1");
    assert_eq!(i, 0);
    assert_eq!(req.method, HttpMethod::Get);
    assert_eq!(req.url, "http://kratos:4434/admin/identities/u1");
    assert!(req.body.is_none());
    assert_eq!(req.headers, vec![("Content-Type".to_string(), "application/json".to_string())]);
}

#[test]
fn identity_not_found_under_admin_path_is_asked_under_plain_path() {
    let c = client();
    match c.get_identity("u1", 0, &reply(404, "")) {
        IdentityStep::Send(i, req) => {
            assert_eq!(i, 1);
            assert_eq!(req.url, "http://kratos:4434/identities/u1");
        }
        IdentityStep::Done(r) => panic!("ended early: {:?}", r),
    }
    let v = done(c.get_identity("u1", 1, &reply(200, r#"{"id":"u1"}"#))).unwrap();
    assert_eq!(v["id"], "u1");
}

#[test]
fn identity_found_at_once() {
    let v = done(client().get_identity("u1", 0, &reply(200, r#"{"id":"u1"}"#))).unwrap();
    assert_eq!(v["id"], "u1");
}

#[test]
fn identity_errors() {
    let c = client();
    assert_eq!(done(c.get_identity("u1", 1, &reply(404, ""))), Err(ServiceError::NoEndpoint));
    assert_eq!(done(c.get_identity("u1", 0, &reply(500, ""))), Err(ServiceError::Status(500)));
    assert_eq!(done(c.get_identity("u1", 0, &reply(200, "<html>"))), Err(ServiceError::Malformed));
    assert_eq!(done(c.get_identity("u1", 0, &Fetched::Failed)), Err(ServiceError::Unreachable));
    assert_eq!(done(c.get_identity("u1", 7, &reply(404, ""))), Err(ServiceError::NoEndpoint));
}

#[test]
fn role_is_read_from_public_metadata() {
    assert_eq!(read_role(&doc(r#"{"metadata_public":{"role":"admin"}}"#)).as_deref(), Some("admin"));
    assert_eq!(read_role(&doc(r#"{"metadata_public":{"role":7}}"#)), None);
    assert_eq!(read_role(&doc(r#"{"metadata_public":null}"#)), None);
    assert_eq!(read_role(&doc(r#"{"role":"admin"}"#)), None);
}

#[test]
fn email_is_read_from_traits_first() {
    let v = doc(r#"{"traits":{"email":"a@x.io"},"verifiable_addresses":[{"value":"b@x.io"}]}"#);
    assert_eq!(read_email(&v).as_deref(), Some("a@x.io"));
}

#[test]
fn email_falls_back_on_first_address_with_a_value() {
    let v = doc(r#"{"traits":{},"verifiable_addresses":[{"via":"email"},{"value":7},{"value":"b@x.io"},{"value":"c@x.io"}]}"#);
    assert_eq!(read_email(&v).as_deref(), Some("b@x.io"));
    assert_eq!(read_email(&doc(r#"{"verifiable_addresses":[]}"#)), None);
    assert_eq!(read_email(&doc(r#"{"verifiable_addresses":{"value":"x"}}"#)), None);
    assert_eq!(read_email(&doc(r#"{"traits":{"email":5}}"#)), None);
    assert_eq!(read_email(&doc("{}")), None);
}

#[test]
fn kratos_client_from_environment() {
    let pick = |a: Option<&str>, b: Option<&str>, c: Option<&str>, d: Option<&str>| {
        KratosClient::from_env(
            a.map(String::from),
            b.map(String::from),
            c.map(String::from),
            d.map(String::from),
        )
        .map(|k| k.admin_url)
    };
    assert_eq!(pick(Some("a"), Some("b"), Some("c"), Some("d")).as_deref(), Some("a"));
    assert_eq!(pick(None, Some("b"), Some("c"), Some("d")).as_deref(), Some("b"));
    assert_eq!(pick(None, None, Some("c"), Some("d")).as_deref(), Some("c"));
    assert_eq!(pick(None, None, None, Some("d")).as_deref(), Some("d"));
    assert_eq!(pick(None, None, None, None), None);
}

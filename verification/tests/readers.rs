use todo_authz::http::{content_type_json, first_of, Fetched, HttpResponse, ServiceError};
use todo_authz::keto::{
    read_allowed, read_page, read_subject_set, read_text, read_tuple, subject_set_document,
    tuple_document, ListPage, ListParams, RelationTuple, SubjectRef, SubjectSet,
};
use todo_authz::kratos::classify_identity;
use todo_authz::keto::Verdict;
use todo_authz::todo_repo::{completed_document, page_owners, title_document};

fn doc(text: &str) -> serde_json::Value {
    serde_json::from_str(text).unwrap()
}

#[test]
fn first_of_two() {
    assert_eq!(first_of(Some(1), Some(2)), Some(1));
    assert_eq!(first_of(None, Some(2)), Some(2));
    assert_eq!(first_of(Some(1), None), Some(1));
    assert_eq!(first_of::<u8>(None, None), None);
}

#[test]
fn json_requests_say_so() {
    assert_eq!(
        content_type_json(),
        vec![("Content-Type".to_string(), "application/json".to_string())]
    );
}

#[test]
fn default_filters_are_none() {
    let p = ListParams::default();
    assert_eq!(p.namespace, "");
    assert!(p.object.is_none() && p.relation.is_none() && p.subject_id.is_none());
    assert!(p.subject_set.is_none() && p.page_size.is_none() && p.page_token.is_none());
}

#[test]
fn allowed_member_is_read_strictly() {
    assert!(read_allowed(&doc(r#"{"allowed":true}"#)));
    assert!(!read_allowed(&doc(r#"{"allowed":false}"#)));
    assert!(!read_allowed(&doc(r#"{"allowed":"true"}"#)));
    assert!(!read_allowed(&doc(r#"{"Allowed":true}"#)));
    assert!(!read_allowed(&doc(r#"[true]"#)));
    assert!(!read_allowed(&doc("true")));
}

#[test]
fn text_members() {
    let v = doc(r#"{"a":"x","b":1,"c":null,"d":{"a":"y"},"e":""}"#);
    assert_eq!(read_text(&v, "a").as_deref(), Some("x"));
    assert_eq!(read_text(&v, "b"), None);
    assert_eq!(read_text(&v, "c"), None);
    assert_eq!(read_text(&v, "d"), None);
    assert_eq!(read_text(&v, "e").as_deref(), Some(""));
    assert_eq!(read_text(&v, "f"), None);
    assert_eq!(read_text(&doc(r#"["a"]"#), "a"), None);
}

#[test]
fn subject_sets_need_all_three_fields() {
    let s = read_subject_set(&doc(r#"{"namespace":"n","object":"o","relation":"r"}"#)).unwrap();
    assert_eq!((s.namespace.as_str(), s.object.as_str(), s.relation.as_str()), ("n", "o", "r"));
    let s = read_subject_set(&doc(r#"{"namespace":"n","object":"o","relation":""}"#)).unwrap();
    assert_eq!(s.relation, "");
    assert!(read_subject_set(&doc(r#"{"namespace":"n","object":"o"}"#)).is_none());
    assert!(read_subject_set(&doc(r#"{"namespace":"n","object":"o","relation":3}"#)).is_none());
    assert!(read_subject_set(&doc("null")).is_none());
}

#[test]
fn direct_subject_counts_before_subject_set() {
    let t = read_tuple(&doc(
        r#"{"namespace":"n","object":"o","relation":"r","subject_id":"s",
            "subject_set":{"namespace":"a","object":"b","relation":"c"}}"#,
    ));
    assert!(matches!(t.subject, Some(SubjectRef::Id(ref s)) if s == "s"));
    let t = read_tuple(&doc(
        r#"{"subject_id":7,"subject_set":{"namespace":"a","object":"b","relation":"c"}}"#,
    ));
    assert!(matches!(t.subject, Some(SubjectRef::SetOf(ref s)) if s.object == "b"));
    let t = read_tuple(&doc("17"));
    assert!(t.namespace.is_none() && t.object.is_none() && t.relation.is_none());
    assert!(t.subject.is_none());
}

#[test]
fn pages_keep_the_order_of_the_reply() {
    let page = read_page(&doc(
        r#"{"relation_tuples":[{"object":"3"},{"object":"1"},{"object":"2"}],"next_page_token":7}"#,
    ));
    let objects: Vec<_> = page.tuples.iter().map(|t| t.object.clone().unwrap()).collect();
    assert_eq!(objects, vec!["3", "1", "2"]);
    assert_eq!(page.next_page_token, None);
    assert!(read_page(&doc("[]")).tuples.is_empty());
    assert!(read_page(&doc(r#"{"relation_tuples":{"0":{}}}"#)).tuples.is_empty());
}

#[test]
fn documents_hold_their_members_only() {
    let d = subject_set_document(&SubjectSet {
        namespace: "n".into(),
        object: "o".into(),
        relation: "r".into(),
    });
    assert_eq!(d.to_string(), r#"{"namespace":"n","object":"o","relation":"r"}"#);
    let d = tuple_document("n", "o", "r", "s");
    assert_eq!(d.to_string(), r#"{"namespace":"n","object":"o","relation":"r","subject_id":"s"}"#);
    assert_eq!(title_document("a \"b\"").to_string(), r#"{"title":"a \"b\""}"#);
    assert_eq!(completed_document(true).to_string(), r#"{"completed":true}"#);
    assert_eq!(completed_document(false).to_string(), r#"{"completed":false}"#);
}

#[test]
fn later_tuple_wins_in_the_owner_index() {
    let t = |object: &str, subject: &str| RelationTuple {
        namespace: None,
        object: Some(object.to_string()),
        relation: None,
        subject: Some(SubjectRef::Id(subject.to_string())),
    };
    let page = ListPage {
        tuples: vec![t("1", "user:a"), t("2", "user:b"), t("1", "user:c"), t("x", "user:d")],
        next_page_token: None,
    };
    let owners = page_owners(&page);
    assert_eq!(owners.len(), 2);
    assert_eq!(owners.get(&1).map(String::as_str), Some("c"));
    assert_eq!(owners.get(&2).map(String::as_str), Some("b"));
}

#[test]
fn identity_replies_are_classified_like_check_replies() {
    let reply = |status: u16, body: &str| {
        Fetched::Response(HttpResponse { status, body: body.to_string() })
    };
    assert!(matches!(classify_identity(&reply(200, r#"{"id":1}"#)), Verdict::Success(v) if v["id"] == 1));
    assert!(matches!(classify_identity(&reply(404, "")), Verdict::TryNext));
    assert!(matches!(classify_identity(&reply(401, "")), Verdict::Fatal(ServiceError::Status(401))));
    assert!(matches!(classify_identity(&reply(200, "")), Verdict::Fatal(ServiceError::Malformed)));
    assert!(matches!(classify_identity(&Fetched::Failed), Verdict::Fatal(ServiceError::Unreachable)));
}

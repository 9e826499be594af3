use todo_authz::http::{Fetched, HttpMethod, HttpRequest, HttpResponse, ServiceError};
use todo_authz::keto::{CheckState, KetoClient, ListPage, RelationTuple, SubjectRef};
use todo_authz::models::Todo;
use todo_authz::supabase::SupabaseClient;
use todo_authz::todo_repo::{
    join_ids, owner_check, page_ids, page_subjects, subject_id, tuple_owner, AdminDeleteState,
    AdminListState, CreateState, DeleteState, Deleted, ListState, RepoError, Step, Swept, TodoRepo,
    UpdateState,
};

const READ: &str = "http://keto-read";
const WRITE: &str = "http://keto-write";
const DB: &str = "http://db";

/// Two services in memory: the tuples of the one, the rows of the other.
struct World {
    tuples: Vec<(String, String)>,
    rows: Vec<Todo>,
    next_id: i64,
    /// Which forms of the check endpoint the tuple service has.
    check_forms: Vec<&'static str>,
    tuple_writes_fail: bool,
    tuple_reads_fail: bool,
    store_calls: usize,
    tuple_calls: usize,
    mutations: usize,
}

fn keto() -> KetoClient {
    KetoClient::new(READ.to_string(), WRITE.to_string())
}

fn store() -> SupabaseClient {
    SupabaseClient::new(DB.to_string(), "key".to_string())
}

fn ok(status: u16, body: String) -> Fetched {
    Fetched::Response(HttpResponse { status, body })
}

fn param(url: &str, name: &str) -> Option<String> {
    let query = url.split_once('?')?.1;
    for part in query.split('&') {
        if let Some((k, v)) = part.split_once('=') {
            if k == name {
                return Some(v.to_string());
            }
        }
    }
    None
}

impl World {
    fn new() -> World {
        World {
            tuples: Vec::new(),
            rows: Vec::new(),
            next_id: 1,
            check_forms: vec!["/relation-tuples/check/openapi"],
            tuple_writes_fail: false,
            tuple_reads_fail: false,
            store_calls: 0,
            tuple_calls: 0,
            mutations: 0,
        }
    }

    fn with_rows(ids: &[i64]) -> World {
        let mut w = World::new();
        for id in ids {
            w.rows.push(Todo {
                id: *id,
                title: format!("todo {}", id),
                completed: false,
                created_at: format!("2024-01-{:02}", id),
            });
            w.next_id = w.next_id.max(id + 1);
        }
        w
    }

    fn own(&mut self, id: i64, subject: &str) {
        self.tuples.push((id.to_string(), subject.to_string()));
    }

    fn listing(&self, url: &str) -> String {
        let object = param(url, "object");
        let subject = param(url, "subject_id");
        let limit: usize = param(url, "page_size").and_then(|n| n.parse().ok()).unwrap_or(100);
        let items: Vec<String> = self
            .tuples
            .iter()
            .filter(|(o, s)| object.as_ref().map_or(true, |x| x == o) && subject.as_ref().map_or(true, |x| x == s))
            .take(limit)
            .map(|(o, s)| {
                format!(
                    r#"{{"namespace":"todos","object":"{}","relation":"owner","subject_id":"{}"}}"#,
                    o, s
                )
            })
            .collect();
        format!(r#"{{"relation_tuples":[{}],"next_page_token":""}}"#, items.join(","))
    }

    fn serve(&mut self, req: &HttpRequest) -> (Fetched, Option<Vec<Todo>>) {
        if let Some(rest) = req.url.strip_prefix(READ) {
            self.tuple_calls += 1;
            if self.tuple_reads_fail {
                return (ok(503, "down".to_string()), None);
            }
            if req.method == HttpMethod::Post {
                if !self.check_forms.iter().any(|f| *f == rest) {
                    return (ok(404, "no such route".to_string()), None);
                }
                let q: serde_json::Value = serde_json::from_str(req.body.as_deref().unwrap()).unwrap();
                assert_eq!(q["namespace"], "todos");
                assert_eq!(q["relation"], "owner");
                let object = q["object"].as_str().unwrap();
                let subject = q["subject_id"].as_str().unwrap();
                let allowed = self.tuples.iter().any(|(o, s)| o == object && s == subject);
                return (ok(200, format!(r#"{{"allowed":{}}}"#, allowed)), None);
            }
            assert!(rest.starts_with("/relation-tuples?"), "unexpected read: {}", rest);
            assert_eq!(param(&req.url, "namespace").as_deref(), Some("todos"));
            assert_eq!(param(&req.url, "relation").as_deref(), Some("owner"));
            return (ok(200, self.listing(&req.url)), None);
        }
        if let Some(rest) = req.url.strip_prefix(WRITE) {
            self.tuple_calls += 1;
            if self.tuple_writes_fail {
                return (Fetched::Failed, None);
            }
            if req.method == HttpMethod::Put {
                assert_eq!(rest, "/relation-tuples");
                let q: serde_json::Value = serde_json::from_str(req.body.as_deref().unwrap()).unwrap();
                let t = (q["object"].as_str().unwrap().to_string(), q["subject_id"].as_str().unwrap().to_string());
                if self.tuples.contains(&t) {
                    return (ok(409, String::new()), None);
                }
                self.tuples.push(t);
                return (ok(201, String::new()), None);
            }
            assert_eq!(req.method, HttpMethod::Delete);
            let object = param(&req.url, "object").unwrap();
            let subject = param(&req.url, "subject_id").unwrap();
            self.tuples.retain(|(o, s)| !(*o == object && *s == subject));
            return (ok(204, String::new()), None);
        }
        let rest = req.url.strip_prefix(DB).expect("a known service");
        self.store_calls += 1;
        assert!(rest.starts_with("/rest/v1/todos"), "unexpected table: {}", rest);
        let id = param(&req.url, "id");
        match req.method {
            HttpMethod::Get => {
                let mut rows: Vec<Todo> = match id {
                    Some(list) => {
                        let inner = list.strip_prefix("in.(").unwrap().strip_suffix(')').unwrap();
                        let ids: Vec<i64> = inner.split(',').map(|s| s.parse().unwrap()).collect();
                        self.rows.iter().filter(|r| ids.contains(&r.id)).cloned().collect()
                    }
                    None => self.rows.clone(),
                };
                rows.sort_by(|a, b| b.created_at.cmp(&a.created_at));
                (ok(200, String::new()), Some(rows))
            }
            HttpMethod::Post => {
                self.mutations += 1;
                let q: serde_json::Value = serde_json::from_str(req.body.as_deref().unwrap()).unwrap();
                let row = Todo {
                    id: self.next_id,
                    title: q["title"].as_str().unwrap().to_string(),
                    completed: false,
                    created_at: format!("2024-02-{:02}", self.next_id),
                };
                self.next_id += 1;
                self.rows.push(row.clone());
                (ok(201, String::new()), Some(vec![row]))
            }
            HttpMethod::Patch => {
                self.mutations += 1;
                let wanted: i64 = id.unwrap().strip_prefix("eq.").unwrap().parse().unwrap();
                let q: serde_json::Value = serde_json::from_str(req.body.as_deref().unwrap()).unwrap();
                let completed = q["completed"].as_bool().unwrap();
                let mut changed = Vec::new();
                for r in self.rows.iter_mut() {
                    if r.id == wanted {
                        r.completed = completed;
                        changed.push(r.clone());
                    }
                }
                (ok(200, String::new()), Some(changed))
            }
            HttpMethod::Delete => {
                self.mutations += 1;
                let wanted: i64 = id.unwrap().strip_prefix("eq.").unwrap().parse().unwrap();
                let gone: Vec<Todo> = self.rows.iter().filter(|r| r.id == wanted).cloned().collect();
                self.rows.retain(|r| r.id != wanted);
                if req.headers.iter().any(|(k, v)| k == "Prefer" && v == "return=representation") {
                    (ok(200, String::new()), Some(gone))
                } else {
                    (ok(204, String::new()), None)
                }
            }
            HttpMethod::Put => panic!("the store takes no PUT"),
        }
    }

    fn list(&mut self, user: &str) -> Result<Vec<Todo>, RepoError> {
        let (mut state, mut req) = TodoRepo::list_begin(&keto(), user);
        loop {
            let (f, rows) = self.serve(&req);
            match TodoRepo::list(&Some(store()), state, &f, rows) {
                Step::Send(s, r) => {
                    state = s;
                    req = r;
                }
                Step::Done(r) => return r,
            }
        }
    }

    fn create(&mut self, user: &str, title: &str) -> Result<Todo, RepoError> {
        let (mut state, mut req) = TodoRepo::create_begin(&store(), title);
        loop {
            let (f, rows) = self.serve(&req);
            match TodoRepo::create(&Some(keto()), user, state, &f, rows) {
                Step::Send(s, r) => {
                    state = s;
                    req = r;
                }
                Step::Done(r) => return r,
            }
        }
    }

    fn update(&mut self, user: &str, id: i64, completed: bool) -> Result<Todo, RepoError> {
        let (mut state, mut req) = TodoRepo::update_begin(&keto(), user, id);
        loop {
            let (f, rows) = self.serve(&req);
            match TodoRepo::update(&Some(keto()), &Some(store()), user, id, completed, state, &f, rows) {
                Step::Send(s, r) => {
                    state = s;
                    req = r;
                }
                Step::Done(r) => return r,
            }
        }
    }

    fn delete(&mut self, user: &str, id: i64) -> Result<Deleted, RepoError> {
        let (mut state, mut req) = TodoRepo::delete_begin(&keto(), user, id);
        loop {
            let (f, rows) = self.serve(&req);
            match TodoRepo::delete(&Some(keto()), &Some(store()), user, id, state, &f, rows) {
                Step::Send(s, r) => {
                    state = s;
                    req = r;
                }
                Step::Done(r) => return r,
            }
        }
    }

    fn check(&mut self, user: &str, id: i64) -> Result<bool, ServiceError> {
        let p = owner_check(user, id);
        let c = keto();
        let (mut state, mut req) = c.check_begin(&p);
        loop {
            let (f, _) = self.serve(&req);
            match c.check(&p, state, &f) {
                todo_authz::keto::CheckStep::Send(s, r) => {
                    state = s;
                    req = r;
                }
                todo_authz::keto::CheckStep::Done(r) => return r,
            }
        }
    }

    fn admin_list(&mut self) -> Result<Vec<(i64, Option<String>)>, RepoError> {
        let (mut state, mut req) = TodoRepo::list_all_with_owner_begin(&store());
        loop {
            let (f, rows) = self.serve(&req);
            match TodoRepo::list_all_with_owner(&Some(keto()), state, &f, rows) {
                Step::Send(s, r) => {
                    state = s;
                    req = r;
                }
                Step::Done(r) => {
                    return r.map(|v| {
                        v.into_iter()
                            .map(|t| {
                                assert!(t.owner_email.is_none());
                                (t.id, t.owner_id)
                            })
                            .collect()
                    })
                }
            }
        }
    }

    fn admin_delete(&mut self, with_keto: bool, id: i64) -> Result<Swept, RepoError> {
        let k = if with_keto { Some(keto()) } else { None };
        let (mut state, mut req) = TodoRepo::delete_any_begin(&store(), id);
        loop {
            let (f, _) = self.serve(&req);
            match TodoRepo::delete_any(&k, id, state, &f) {
                Step::Send(s, r) => {
                    state = s;
                    req = r;
                }
                Step::Done(r) => return r,
            }
        }
    }

    fn row_ids(&self) -> Vec<i64> {
        self.rows.iter().map(|r| r.id).collect()
    }
}

fn row(id: i64) -> Todo {
    Todo { id, title: format!("todo {}", id), completed: false, created_at: "2024".to_string() }
}

fn tuple(object: Option<&str>, subject: Option<&str>) -> RelationTuple {
    RelationTuple {
        namespace: Some("todos".to_string()),
        object: object.map(String::from),
        relation: Some("owner".to_string()),
        subject: subject.map(|s| SubjectRef::Id(s.to_string())),
    }
}

#[test]
fn subject_of_a_user() {
    assert_eq!(subject_id("42"), "user:42");
    assert_eq!(subject_id(""), "user:");
    let p = owner_check("a", -7);
    assert_eq!(p.namespace, "todos");
    assert_eq!(p.object, "-7");
    assert_eq!(p.relation, "owner");
    assert_eq!(p.subject_id.as_deref(), Some("user:a"));
    assert!(p.subject_set.is_none());
    assert_eq!(p.max_depth, None);
}

#[test]
fn ids_of_a_page_skip_what_is_no_id() {
    let page = ListPage {
        tuples: vec![
            tuple(Some("3"), Some("user:a")),
            tuple(Some("x"), Some("user:a")),
            tuple(None, Some("user:a")),
            tuple(Some("1"), None),
            tuple(Some("+2"), Some("user:a")),
        ],
        next_page_token: None,
    };
    assert_eq!(page_ids(&page), vec![3, 1, 2]);
    assert_eq!(page_subjects(&page), vec!["user:a", "user:a", "user:a", "user:a"]);
    assert_eq!(join_ids(&vec![3, 1, 2]), "3,1,2");
    assert_eq!(join_ids(&vec![-5]), "-5");
    assert_eq!(join_ids(&vec![]), "");
}

#[test]
fn owner_of_a_tuple() {
    assert_eq!(tuple_owner(&tuple(Some("3"), Some("user:a"))), Some((3, "a".to_string())));
    assert_eq!(tuple_owner(&tuple(Some("3"), Some("svc"))), Some((3, "svc".to_string())));
    assert_eq!(tuple_owner(&tuple(Some("x"), Some("user:a"))), None);
    assert_eq!(tuple_owner(&tuple(Some("3"), None)), None);
    assert_eq!(tuple_owner(&tuple(None, Some("user:a"))), None);
}

#[test]
fn list_asks_for_owned_tuples_then_for_rows() {
    let (state, req) = TodoRepo::list_begin(&keto(), "a");
    assert_eq!(state, ListState::Owned);
    assert_eq!(
        req.url,
        "http://keto-read/relation-tuples?namespace=todos&relation=owner&subject_id=user:a&page_size=500"
    );
    let body = r#"{"relation_tuples":[{"object":"2","subject_id":"user:a"},{"object":"5","subject_id":"user:a"}]}"#;
    match TodoRepo::list(&Some(store()), state, &ok(200, body.to_string()), None) {
        Step::Send(s, r) => {
            assert_eq!(s, ListState::Rows);
            assert_eq!(r.method, HttpMethod::Get);
            assert_eq!(
                r.url,
                "http://db/rest/v1/todos?select=id,title,completed,created_at&id=in.(2,5)&order=created_at.desc"
            );
        }
        Step::Done(r) => panic!("ended early: {:?}", r),
    }
}

#[test]
fn list_of_owner_of_nothing_is_empty_without_store_call() {
    let mut w = World::with_rows(&[1, 2]);
    w.own(1, "user:b");
    assert_eq!(w.list("a").unwrap().len(), 0);
    assert_eq!(w.store_calls, 0);
    assert_eq!(w.tuple_calls, 1);
}

#[test]
fn list_returns_own_rows_newest_first() {
    let mut w = World::with_rows(&[1, 2, 3, 4]);
    w.own(1, "user:a");
    w.own(2, "user:b");
    w.own(4, "user:a");
    let got: Vec<i64> = w.list("a").unwrap().iter().map(|t| t.id).collect();
    assert_eq!(got, vec![4, 1]);
    assert_eq!(w.store_calls, 1);
}

#[test]
fn list_fails_when_tuples_cannot_be_read() {
    let mut w = World::with_rows(&[1]);
    w.tuple_reads_fail = true;
    assert_eq!(w.list("a").unwrap_err(), RepoError::Authz(ServiceError::Status(503)));
    assert_eq!(w.store_calls, 0);
    assert_eq!(
        match TodoRepo::list(&Some(store()), ListState::Rows, &ok(500, String::new()), None) {
            Step::Done(r) => r.unwrap_err(),
            Step::Send(..) => panic!("should have ended"),
        },
        RepoError::Store(ServiceError::Status(500))
    );
}

#[test]
fn created_todo_is_owned_by_its_creator() {
    let mut w = World::new();
    let todo = w.create("a", "x").unwrap();
    assert_eq!(todo.title, "x");
    assert_eq!(w.check("a", todo.id), Ok(true));
    assert_eq!(w.check("b", todo.id), Ok(false));
    assert_eq!(w.tuples, vec![(todo.id.to_string(), "user:a".to_string())]);
}

#[test]
fn created_todo_is_owned_where_check_falls_back_on_listing() {
    let mut w = World::new();
    w.check_forms.clear();
    let todo = w.create("a", "x").unwrap();
    assert_eq!(w.check("a", todo.id), Ok(true));
    assert_eq!(w.check("b", todo.id), Ok(false));
}

#[test]
fn create_writes_the_row_first() {
    let (state, req) = TodoRepo::create_begin(&store(), "buy milk");
    assert!(matches!(state, CreateState::Row));
    assert_eq!(req.method, HttpMethod::Post);
    assert_eq!(req.url, "http://db/rest/v1/todos");
    assert_eq!(req.body.as_deref(), Some(r#"{"title":"buy milk"}"#));
}

#[test]
fn create_fails_when_owner_cannot_be_recorded_and_row_stays() {
    let mut w = World::new();
    w.tuple_writes_fail = true;
    let e = w.create("a", "x").unwrap_err();
    assert_eq!(e, RepoError::OwnerNotRecorded { id: 1, cause: ServiceError::Unreachable });
    assert_eq!(w.row_ids(), vec![1]);
    assert!(w.tuples.is_empty());
}

#[test]
fn create_fails_without_a_row() {
    let k = Some(keto());
    let step = TodoRepo::create(&k, "a", CreateState::Row, &ok(201, String::new()), Some(vec![]));
    assert!(matches!(step, Step::Done(Err(RepoError::NoRowReturned))));
    let step = TodoRepo::create(&k, "a", CreateState::Row, &ok(500, String::new()), None);
    assert!(matches!(step, Step::Done(Err(RepoError::Store(ServiceError::Status(500))))));
    let step = TodoRepo::create(&k, "a", CreateState::Row, &ok(201, String::new()), None);
    assert!(matches!(step, Step::Done(Err(RepoError::Store(ServiceError::Malformed)))));
}

#[test]
fn update_by_owner_changes_the_row() {
    let mut w = World::with_rows(&[1, 2]);
    w.own(1, "user:a");
    let t = w.update("a", 1, true).unwrap();
    assert_eq!(t.id, 1);
    assert!(t.completed);
    assert!(w.rows[0].completed);
    assert!(!w.rows[1].completed);
}

#[test]
fn update_by_other_user_is_forbidden_and_touches_no_row() {
    let mut w = World::with_rows(&[1]);
    w.own(1, "user:a");
    assert_eq!(w.update("b", 1, true).unwrap_err(), RepoError::Forbidden);
    assert_eq!(w.store_calls, 0);
    assert!(!w.rows[0].completed);
}

#[test]
fn update_of_missing_row_is_not_found() {
    let mut w = World::with_rows(&[1]);
    w.own(9, "user:a");
    assert_eq!(w.update("a", 9, true).unwrap_err(), RepoError::NotFound);
}

#[test]
fn update_sends_the_flag() {
    let f = ok(200, r#"{"allowed":true}"#.to_string());
    let state = UpdateState::Check(CheckState::Candidate(0));
    match TodoRepo::update(&Some(keto()), &Some(store()), "a", 4, false, state, &f, None) {
        Step::Send(s, r) => {
            assert_eq!(s, UpdateState::Row);
            assert_eq!(r.method, HttpMethod::Patch);
            assert_eq!(r.url, "http://db/rest/v1/todos?id=eq.4");
            assert_eq!(r.body.as_deref(), Some(r#"{"completed":false}"#));
        }
        Step::Done(r) => panic!("ended early: {:?}", r),
    }
}

#[test]
fn delete_by_other_user_is_forbidden_and_touches_no_row() {
    let mut w = World::with_rows(&[1]);
    w.own(1, "user:a");
    assert_eq!(w.delete("b", 1).unwrap_err(), RepoError::Forbidden);
    assert_eq!(w.store_calls, 0);
    assert_eq!(w.row_ids(), vec![1]);
    assert_eq!(w.tuples.len(), 1);
}

#[test]
fn non_owner_is_forbidden_under_every_form_of_the_check() {
    for forms in [vec![], vec!["/relation-tuples/check"], vec!["/v1/relation-tuples/check"]] {
        let mut w = World::with_rows(&[1]);
        w.check_forms = forms;
        w.own(1, "user:a");
        assert_eq!(w.delete("b", 1).unwrap_err(), RepoError::Forbidden);
        assert_eq!(w.update("b", 1, true).unwrap_err(), RepoError::Forbidden);
        assert_eq!(w.mutations, 0);
        assert!(w.update("a", 1, true).is_ok());
    }
}

#[test]
fn delete_by_owner_removes_row_and_tuple() {
    let mut w = World::with_rows(&[1, 2]);
    w.own(1, "user:a");
    w.own(2, "user:a");
    assert_eq!(w.delete("a", 1), Ok(Deleted { warning: None }));
    assert_eq!(w.row_ids(), vec![2]);
    assert_eq!(w.tuples, vec![("2".to_string(), "user:a".to_string())]);
}

#[test]
fn delete_succeeds_though_tuple_cleanup_fails() {
    let mut w = World::with_rows(&[1]);
    w.own(1, "user:a");
    w.tuple_writes_fail = true;
    assert_eq!(w.delete("a", 1), Ok(Deleted { warning: Some(ServiceError::Unreachable) }));
    assert!(w.rows.is_empty());
    assert_eq!(w.tuples.len(), 1);
}

#[test]
fn delete_keeps_the_order_check_row_tuple() {
    let k = Some(keto());
    let s = Some(store());
    let (state, req) = TodoRepo::delete_begin(&keto(), "a", 3);
    assert_eq!(state, DeleteState::Check(CheckState::Candidate(0)));
    assert_eq!(req.url, "http://keto-read/relation-tuples/check/openapi");
    let allowed = ok(200, r#"{"allowed":true}"#.to_string());
    let (state, req) = match TodoRepo::delete(&k, &s, "a", 3, state, &allowed, None) {
        Step::Send(s, r) => (s, r),
        Step::Done(r) => panic!("ended early: {:?}", r),
    };
    assert_eq!(state, DeleteState::Row);
    assert_eq!(req.method, HttpMethod::Delete);
    assert_eq!(req.url, "http://db/rest/v1/todos?id=eq.3");
    assert!(req.headers.contains(&("Prefer".to_string(), "return=representation".to_string())));
    let gone = Some(vec![row(3)]);
    let (state, req) = match TodoRepo::delete(&k, &s, "a", 3, state, &ok(200, String::new()), gone) {
        Step::Send(s, r) => (s, r),
        Step::Done(r) => panic!("ended early: {:?}", r),
    };
    assert_eq!(state, DeleteState::Tuple);
    assert_eq!(req.method, HttpMethod::Delete);
    assert_eq!(
        req.url,
        "http://keto-write/relation-tuples?namespace=todos&object=3&relation=owner&subject_id=user:a"
    );
    for f in [ok(500, String::new()), Fetched::Failed, ok(404, String::new())] {
        assert!(matches!(
            TodoRepo::delete(&k, &s, "a", 3, DeleteState::Tuple, &f, None),
            Step::Done(Ok(Deleted { warning: Some(_) }))
        ));
    }
    assert!(matches!(
        TodoRepo::delete(&k, &s, "a", 3, DeleteState::Row, &ok(500, String::new()), None),
        Step::Done(Err(RepoError::Store(ServiceError::Status(500))))
    ));
    assert!(matches!(
        TodoRepo::delete(&k, &s, "a", 3, DeleteState::Row, &ok(200, String::new()), None),
        Step::Done(Err(RepoError::Store(ServiceError::Malformed)))
    ));
    assert!(matches!(
        TodoRepo::delete(&k, &s, "a", 3, DeleteState::Row, &ok(204, String::new()), Some(vec![row(3)])),
        Step::Done(Err(RepoError::Store(ServiceError::Status(204))))
    ));
}

#[test]
fn delete_of_missing_row_is_not_found() {
    let mut w = World::with_rows(&[1]);
    w.own(9, "user:a");
    assert_eq!(w.delete("a", 9).unwrap_err(), RepoError::NotFound);
    assert_eq!(w.row_ids(), vec![1]);
    assert_eq!(w.tuples, vec![("9".to_string(), "user:a".to_string())]);
    assert_eq!(w.store_calls, 1);
}

#[test]
fn delete_that_removed_nothing_sends_no_tuple_request() {
    let step = TodoRepo::delete(
        &Some(keto()),
        &Some(store()),
        "a",
        3,
        DeleteState::Row,
        &ok(200, "[]".to_string()),
        Some(vec![]),
    );
    assert!(matches!(step, Step::Done(Err(RepoError::NotFound))));
}

#[test]
fn missing_store_fails_only_where_the_store_is_needed() {
    let mut w = World::with_rows(&[1]);
    w.own(1, "user:a");
    let none = None;
    let (state, req) = TodoRepo::list_begin(&keto(), "b");
    let (f, _) = w.serve(&req);
    assert!(matches!(TodoRepo::list(&none, state, &f, None), Step::Done(Ok(v)) if v.is_empty()));
    let (state, req) = TodoRepo::list_begin(&keto(), "a");
    let (f, _) = w.serve(&req);
    assert!(matches!(
        TodoRepo::list(&none, state, &f, None),
        Step::Done(Err(RepoError::Store(ServiceError::Unconfigured)))
    ));
    let allowed = ok(200, r#"{"allowed":true}"#.to_string());
    let denied = ok(200, r#"{"allowed":false}"#.to_string());
    let check = CheckState::Candidate(0);
    assert!(matches!(
        TodoRepo::update(&Some(keto()), &none, "a", 1, true, UpdateState::Check(check), &allowed, None),
        Step::Done(Err(RepoError::Store(ServiceError::Unconfigured)))
    ));
    assert!(matches!(
        TodoRepo::update(&Some(keto()), &none, "a", 1, true, UpdateState::Check(check), &denied, None),
        Step::Done(Err(RepoError::Forbidden))
    ));
    assert!(matches!(
        TodoRepo::delete(&Some(keto()), &none, "a", 1, DeleteState::Check(check), &allowed, None),
        Step::Done(Err(RepoError::Store(ServiceError::Unconfigured)))
    ));
    assert!(matches!(
        TodoRepo::delete(&Some(keto()), &none, "a", 1, DeleteState::Check(check), &denied, None),
        Step::Done(Err(RepoError::Forbidden))
    ));
    assert!(matches!(
        TodoRepo::delete(&None, &none, "a", 1, DeleteState::Check(check), &allowed, None),
        Step::Done(Err(RepoError::Authz(ServiceError::Unconfigured)))
    ));
    assert!(matches!(
        TodoRepo::update(&None, &none, "a", 1, true, UpdateState::Check(check), &allowed, None),
        Step::Done(Err(RepoError::Authz(ServiceError::Unconfigured)))
    ));
    assert!(matches!(
        TodoRepo::delete(&None, &none, "a", 1, DeleteState::Row, &allowed, Some(vec![row(1)])),
        Step::Done(Ok(Deleted { warning: Some(ServiceError::Unconfigured) }))
    ));
}

#[test]
fn missing_tuple_service_leaves_the_new_row_without_owner() {
    let created = Some(vec![row(5)]);
    let step = TodoRepo::create(&None, "a", CreateState::Row, &ok(201, String::new()), created);
    assert!(matches!(
        step,
        Step::Done(Err(RepoError::OwnerNotRecorded { id: 5, cause: ServiceError::Unconfigured }))
    ));
    let step = TodoRepo::list_all_with_owner(
        &None,
        AdminListState::Rows,
        &ok(200, String::new()),
        Some(vec![row(5)]),
    );
    assert!(matches!(step, Step::Done(Err(RepoError::Authz(ServiceError::Unconfigured)))));
}

#[test]
fn failing_check_fails_the_operation_before_any_row_is_touched() {
    let mut w = World::with_rows(&[1]);
    w.own(1, "user:a");
    w.tuple_reads_fail = true;
    assert_eq!(w.delete("a", 1).unwrap_err(), RepoError::Authz(ServiceError::Status(503)));
    assert_eq!(w.update("a", 1, true).unwrap_err(), RepoError::Authz(ServiceError::Status(503)));
    assert_eq!(w.store_calls, 0);
}

#[test]
fn admin_listing_joins_rows_with_owners() {
    let mut w = World::with_rows(&[1, 2, 3]);
    w.own(1, "user:a");
    w.own(3, "user:b");
    let mut got = w.admin_list().unwrap();
    got.sort();
    assert_eq!(
        got,
        vec![(1, Some("a".to_string())), (2, None), (3, Some("b".to_string()))]
    );
}

#[test]
fn admin_listing_keeps_row_order_and_asks_for_one_page() {
    let mut w = World::with_rows(&[1, 2, 3]);
    w.own(2, "svc");
    w.own(2, "user:z");
    let got = w.admin_list().unwrap();
    assert_eq!(got, vec![(3, None), (2, Some("z".to_string())), (1, None)]);
    let (state, req) = TodoRepo::list_all_with_owner_begin(&store());
    assert!(matches!(state, AdminListState::Rows));
    assert_eq!(
        req.url,
        "http://db/rest/v1/todos?select=id,title,completed,created_at&order=created_at.desc"
    );
    match TodoRepo::list_all_with_owner(&Some(keto()), state, &ok(200, String::new()), Some(vec![])) {
        Step::Send(AdminListState::Owners(rows), r) => {
            assert!(rows.is_empty());
            assert_eq!(
                r.url,
                "http://keto-read/relation-tuples?namespace=todos&relation=owner&page_size=1000"
            );
        }
        _ => panic!("should ask for the owners"),
    }
}

#[test]
fn admin_listing_fails_with_either_service() {
    let mut w = World::with_rows(&[1]);
    w.tuple_reads_fail = true;
    assert_eq!(w.admin_list().unwrap_err(), RepoError::Authz(ServiceError::Status(503)));
    let step =
        TodoRepo::list_all_with_owner(&Some(keto()), AdminListState::Rows, &Fetched::Failed, None);
    assert!(matches!(step, Step::Done(Err(RepoError::Store(ServiceError::Unreachable)))));
}

#[test]
fn admin_delete_removes_row_and_every_owner_tuple() {
    let mut w = World::with_rows(&[1, 2]);
    w.own(1, "user:a");
    w.own(1, "user:b");
    w.own(2, "user:a");
    let swept = w.admin_delete(true, 1).unwrap();
    assert!(swept.warnings.is_empty());
    assert_eq!(w.row_ids(), vec![2]);
    assert_eq!(w.tuples, vec![("2".to_string(), "user:a".to_string())]);
}

#[test]
fn admin_delete_notes_failures_and_succeeds() {
    let mut w = World::with_rows(&[1]);
    w.own(1, "user:a");
    w.own(1, "user:b");
    w.tuple_writes_fail = true;
    let swept = w.admin_delete(true, 1).unwrap();
    assert_eq!(swept.warnings, vec![ServiceError::Unreachable, ServiceError::Unreachable]);
    assert!(w.rows.is_empty());

    let mut w = World::with_rows(&[1]);
    w.tuple_reads_fail = true;
    let swept = w.admin_delete(true, 1).unwrap();
    assert_eq!(swept.warnings, vec![ServiceError::Status(503)]);
    assert!(w.rows.is_empty());
}

#[test]
fn admin_delete_without_tuple_service_ends_with_the_row() {
    let mut w = World::with_rows(&[1]);
    w.own(1, "user:a");
    let swept = w.admin_delete(false, 1).unwrap();
    assert!(swept.warnings.is_empty());
    assert!(w.rows.is_empty());
    assert_eq!(w.tuple_calls, 0);
}

#[test]
fn admin_delete_asks_for_the_owners_of_the_row() {
    let k = Some(keto());
    let (state, req) = TodoRepo::delete_any_begin(&store(), 8);
    assert!(matches!(state, AdminDeleteState::Row));
    assert_eq!(req.url, "http://db/rest/v1/todos?id=eq.8");
    match TodoRepo::delete_any(&k, 8, state, &ok(200, String::new())) {
        Step::Send(AdminDeleteState::Tuples, r) => assert_eq!(
            r.url,
            "http://keto-read/relation-tuples?namespace=todos&object=8&relation=owner&page_size=100"
        ),
        _ => panic!("should list the owners"),
    }
    let step = TodoRepo::delete_any(&k, 8, AdminDeleteState::Row, &ok(500, String::new()));
    assert!(matches!(step, Step::Done(Err(RepoError::Store(ServiceError::Status(500))))));
    let body = r#"{"relation_tuples":[{"subject_id":"user:a"},{"subject_set":{}},{"subject_id":"g"}]}"#;
    match TodoRepo::delete_any(&k, 8, AdminDeleteState::Tuples, &ok(200, body.to_string())) {
        Step::Send(AdminDeleteState::Cleanup(pending, warnings), r) => {
            assert_eq!(pending, vec!["g"]);
            assert!(warnings.is_empty());
            assert_eq!(
                r.url,
                "http://keto-write/relation-tuples?namespace=todos&object=8&relation=owner&subject_id=user:a"
            );
        }
        _ => panic!("should start the cleanup"),
    }
}

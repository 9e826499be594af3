//! Todo rows behind their ownership records.
//!
//! Rows live in the record store; who owns a row is recorded in the tuple
//! service. No transaction spans the two, so every operation here is a short
//! sequence of calls in a fixed order, written as a state machine: the caller
//! sends the request it is given, and hands the reply to the same operation
//! together with the state it was given.
//!
//! An ownership check and the change it guards are two calls. Ownership that
//! is withdrawn between them goes unnoticed for that one change.

use vstd::prelude::*;
use vstd::string::*;
use std::collections::HashMap;
use crate::http::{Fetched, HttpRequest, RequestModel, ServiceError};
use crate::json::{
    bool_value, empty_object, json_model, json_rendered, set_member, single, text_value,
    JsonModel,
};
use crate::keto::{
    check_move, creation_request, creation_result, deletion_request, deletion_result,
    fallback_query, is_check_step, listing_request, listing_result, request_of, tuple_object,
    CheckModel, CheckMove, CheckParams, CheckState, CheckStep, KetoClient, ListModel, ListPage,
    ListParams, RelationTuple, SubjectModel, SubjectRef, TupleModel,
};
use crate::models::{rows_model, AdminTodo, AdminTodoModel, Todo, TodoModel};
use crate::supabase::{
    insert_request, removal_result, remove_request, remove_returning_request, rows_result,
    select_request, update_request, SupabaseClient,
};
use crate::text::{
    lemma_render_then_parse, parse_i64, parsed_i64, render_i64, signed_decimal, strip_prefix,
    without_prefix,
};

verus! {

/// Why an operation on todos failed.
#[derive(Clone, Copy, PartialEq, Eq, Structural, Debug)]
pub enum RepoError {
    /// The acting user does not own the row. No row was touched.
    Forbidden,
    /// There is no such row.
    NotFound,
    /// The tuple service failed before any row was touched.
    Authz(ServiceError),
    /// The record store failed.
    Store(ServiceError),
    /// The record store accepted a new row but returned none.
    NoRowReturned,
    /// The row `id` was created, but its owner could not be recorded: the
    /// row now exists without an owner.
    OwnerNotRecorded { id: i64, cause: ServiceError },
}

/// What an operation does next: send a request and wait in a new state, or
/// end with its result.
#[derive(Debug)]
pub enum Step<S, T> {
    Send(S, HttpRequest),
    Done(Result<T, RepoError>),
}

/// The namespace of todo rows in the tuple service.
pub open spec fn todos() -> Seq<char> {
    "todos"@
}

/// The relation between a row and the user who created it.
pub open spec fn owner() -> Seq<char> {
    "owner"@
}

/// The subject that stands for a user.
pub open spec fn user_subject(user_id: Seq<char>) -> Seq<char> {
    "user:"@ + user_id
}

/// The columns and the order of every selection of todos: newest first.
pub open spec fn all_rows_query() -> Seq<char> {
    "select=id,title,completed,created_at&order=created_at.desc"@
}

/// The question whether `user_id` owns the row `id`.
pub open spec fn ownership_check(user_id: Seq<char>, id: i64) -> CheckModel {
    CheckModel {
        namespace: todos(),
        object: signed_decimal(id as int),
        relation: owner(),
        subject_id: Some(user_subject(user_id)),
        subject_set: None,
        max_depth: None,
    }
}

/// The listing of the rows that `user_id` owns.
pub open spec fn owned_query(user_id: Seq<char>) -> ListModel {
    ListModel {
        namespace: todos(),
        object: None,
        relation: Some(owner()),
        subject_id: Some(user_subject(user_id)),
        subject_set: None,
        page_size: Some(500u32),
        page_token: None,
    }
}

/// The listing of all ownership records: one page of at most 1000. Records
/// beyond the first page are not read.
pub open spec fn all_owners_query() -> ListModel {
    ListModel {
        namespace: todos(),
        object: None,
        relation: Some(owner()),
        subject_id: None,
        subject_set: None,
        page_size: Some(1000u32),
        page_token: None,
    }
}

/// The listing of the ownership records of the row `id`, whoever holds them.
pub open spec fn owners_of_query(id: i64) -> ListModel {
    ListModel {
        namespace: todos(),
        object: Some(signed_decimal(id as int)),
        relation: Some(owner()),
        subject_id: None,
        subject_set: None,
        page_size: Some(100u32),
        page_token: None,
    }
}

/// The row id that a tuple names, where its object is a whole number.
pub open spec fn object_id(t: TupleModel) -> Option<i64> {
    match t.object {
        Some(o) => parsed_i64(o),
        None => None,
    }
}

/// The row ids that the tuples name, in order. Tuples whose object is no
/// row id are passed over.
pub open spec fn owned_ids(ts: Seq<TupleModel>) -> Seq<i64>
    decreases ts.len(),
{
    if ts.len() == 0 {
        Seq::empty()
    } else {
        match object_id(ts.last()) {
            Some(id) => owned_ids(ts.drop_last()).push(id),
            None => owned_ids(ts.drop_last()),
        }
    }
}

/// Row ids in decimal, separated by commas.
pub open spec fn joined_ids(ids: Seq<i64>) -> Seq<char>
    decreases ids.len(),
{
    if ids.len() == 0 {
        Seq::empty()
    } else if ids.len() == 1 {
        signed_decimal(ids[0] as int)
    } else {
        joined_ids(ids.drop_last()) + ","@ + signed_decimal(ids.last() as int)
    }
}

/// The selection of the rows with the given ids, newest first.
pub open spec fn rows_by_id_query(ids: Seq<i64>) -> Seq<char> {
    "select=id,title,completed,created_at&id=in.("@ + joined_ids(ids)
        + ")&order=created_at.desc"@
}

/// The row and its owner that a tuple records: its object must be a row id
/// and its subject a direct one. The owner is the subject without the
/// `user:` in front, or the whole subject where it has none.
pub open spec fn owner_entry(t: TupleModel) -> Option<(i64, Seq<char>)> {
    match (object_id(t), t.subject) {
        (Some(id), Some(SubjectModel::Id(s))) => Some((id, without_prefix(s, "user:"@))),
        _ => None,
    }
}

/// The owner of each row according to the tuples. Where two tuples name the
/// same row, the later one counts.
pub open spec fn owner_index(ts: Seq<TupleModel>) -> Map<i64, Seq<char>>
    decreases ts.len(),
{
    if ts.len() == 0 {
        Map::empty()
    } else {
        match owner_entry(ts.last()) {
            Some((id, who)) => owner_index(ts.drop_last()).insert(id, who),
            None => owner_index(ts.drop_last()),
        }
    }
}

/// A row with the owner that the index gives it, none where the index does
/// not know the row. The email address is left open.
pub open spec fn with_owner(row: TodoModel, index: Map<i64, Seq<char>>) -> AdminTodoModel {
    AdminTodoModel {
        row,
        owner_id: if index.contains_key(row.id) {
            Some(index[row.id])
        } else {
            None
        },
        owner_email: None,
    }
}

/// Every row with its owner, in the order of the rows.
pub open spec fn joined_with_owners(rows: Seq<TodoModel>, index: Map<i64, Seq<char>>) -> Seq<
    AdminTodoModel,
> {
    rows.map_values(|row: TodoModel| with_owner(row, index))
}

/// The contents of a list of rows with owners, in order.
pub open spec fn admin_rows_model(rows: Seq<AdminTodo>) -> Seq<AdminTodoModel> {
    rows.map_values(|t: AdminTodo| t@)
}

/// The direct subjects that the tuples name, in order.
pub open spec fn direct_subjects(ts: Seq<TupleModel>) -> Seq<Seq<char>>
    decreases ts.len(),
{
    if ts.len() == 0 {
        Seq::empty()
    } else {
        match ts.last().subject {
            Some(SubjectModel::Id(s)) => direct_subjects(ts.drop_last()).push(s),
            _ => direct_subjects(ts.drop_last()),
        }
    }
}

/// The contents of a list of texts, in order.
pub open spec fn texts(v: Seq<String>) -> Seq<Seq<char>> {
    v.map_values(|s: String| s@)
}

/// The subject that stands for a user.
pub fn subject_id(user_id: &str) -> (r: String)
    ensures
        r@ == user_subject(user_id@),
{
    let mut r = String::from_str("user:");
    r.append(user_id);
    r
}

/// The question whether `user_id` owns the row `id`.
pub fn owner_check(user_id: &str, id: i64) -> (r: CheckParams)
    ensures
        r@ == ownership_check(user_id@, id),
{
    CheckParams {
        namespace: String::from_str("todos"),
        object: render_i64(id),
        relation: String::from_str("owner"),
        subject_id: Some(subject_id(user_id)),
        subject_set: None,
        max_depth: None,
    }
}

/// Reads the row id that a tuple names.
pub fn tuple_object_id(t: &RelationTuple) -> (r: Option<i64>)
    ensures
        r == object_id(t@),
{
    match &t.object {
        Some(o) => parse_i64(o.as_str()),
        None => None,
    }
}

/// Collects the row ids that the tuples of a page name.
pub fn page_ids(page: &ListPage) -> (r: Vec<i64>)
    ensures
        r@ == owned_ids(page@.tuples),
{
    let mut ids: Vec<i64> = Vec::new();
    let mut i: usize = 0;
    let ghost ts = page@.tuples;
    assert(ts.subrange(0, 0) =~= Seq::<TupleModel>::empty());
    while i < page.tuples.len()
        invariant
            i <= page.tuples.len(),
            ts == page@.tuples,
            ids@ == owned_ids(ts.subrange(0, i as int)),
        decreases page.tuples.len() - i,
    {
        proof {
            let next = ts.subrange(0, i + 1);
            assert(next.drop_last() =~= ts.subrange(0, i as int));
            assert(next.last() == page.tuples@[i as int]@);
        }
        match tuple_object_id(&page.tuples[i]) {
            Some(id) => {
                ids.push(id);
            },
            None => {},
        }
        i = i + 1;
    }
    assert(ts.subrange(0, i as int) =~= ts);
    ids
}

/// Writes row ids in decimal, separated by commas.
pub fn join_ids(ids: &Vec<i64>) -> (r: String)
    ensures
        r@ == joined_ids(ids@),
{
    let mut out = String::new();
    let mut i: usize = 0;
    assert(ids@.subrange(0, 0) =~= Seq::<i64>::empty());
    while i < ids.len()
        invariant
            i <= ids.len(),
            out@ == joined_ids(ids@.subrange(0, i as int)),
        decreases ids.len() - i,
    {
        proof {
            let next = ids@.subrange(0, i + 1);
            assert(next.drop_last() =~= ids@.subrange(0, i as int));
            assert(next.last() == ids@[i as int]);
            if i == 0 {
                assert(next[0] == ids@[0]);
                assert(Seq::<char>::empty() + signed_decimal(ids@[0] as int) =~= signed_decimal(
                    ids@[0] as int,
                ));
            }
        }
        if i > 0 {
            out.append(",");
        }
        out.append(render_i64(ids[i]).as_str());
        i = i + 1;
    }
    assert(ids@.subrange(0, i as int) =~= ids@);
    out
}

/// Reads the row and its owner that a tuple records.
pub fn tuple_owner(t: &RelationTuple) -> (r: Option<(i64, String)>)
    ensures
        match r {
            Some((id, who)) => owner_entry(t@) == Some((id, who@)),
            None => owner_entry(t@) is None,
        },
{
    match tuple_object_id(t) {
        Some(id) => match &t.subject {
            Some(SubjectRef::Id(s)) => Some((id, strip_prefix(s.as_str(), "user:"))),
            _ => None,
        },
        None => None,
    }
}

/// `m` holds the same owners as `index`.
pub open spec fn holds_index(m: Map<i64, String>, index: Map<i64, Seq<char>>) -> bool {
    &&& forall|id: i64| m.contains_key(id) <==> index.contains_key(id)
    &&& forall|id: i64| m.contains_key(id) ==> (#[trigger] m[id])@ == index[id]
}

/// Builds the index from rows to owners out of the tuples of a page.
pub fn page_owners(page: &ListPage) -> (r: HashMap<i64, String>)
    ensures
        holds_index(r@, owner_index(page@.tuples)),
{
    broadcast use vstd::std_specs::hash::group_hash_axioms;

    let mut owners: HashMap<i64, String> = HashMap::new();
    let mut i: usize = 0;
    let ghost ts = page@.tuples;
    assert(ts.subrange(0, 0) =~= Seq::<TupleModel>::empty());
    while i < page.tuples.len()
        invariant
            i <= page.tuples.len(),
            ts == page@.tuples,
            holds_index(owners@, owner_index(ts.subrange(0, i as int))),
        decreases page.tuples.len() - i,
    {
        proof {
            let next = ts.subrange(0, i + 1);
            assert(next.drop_last() =~= ts.subrange(0, i as int));
            assert(next.last() == page.tuples@[i as int]@);
        }
        match tuple_owner(&page.tuples[i]) {
            Some((id, who)) => {
                owners.insert(id, who);
            },
            None => {},
        }
        i = i + 1;
    }
    assert(ts.subrange(0, i as int) =~= ts);
    owners
}

/// Gives every row the owner that the index knows for it.
fn join_owners(rows: Vec<Todo>, owners: &HashMap<i64, String>, Ghost(index): Ghost<
    Map<i64, Seq<char>>,
>) -> (r: Vec<AdminTodo>)
    requires
        holds_index(owners@, index),
    ensures
        admin_rows_model(r@) == joined_with_owners(rows_model(rows@), index),
{
    broadcast use vstd::std_specs::hash::group_hash_axioms;

    let mut out: Vec<AdminTodo> = Vec::new();
    let ghost all = rows@;
    let mut i: usize = 0;
    let n = rows.len();
    while i < n
        invariant
            i <= n,
            n == all.len(),
            rows@.len() == n,
            forall|j: int| i <= j < n ==> rows@[j] == all[j],
            out@.len() == i,
            holds_index(owners@, index),
            forall|j: int| 0 <= j < i ==> (#[trigger] out@[j])@ == with_owner(all[j]@, index),
        decreases n - i,
    {
        let id = rows[i].id;
        let completed = rows[i].completed;
        let title = rows[i].title.clone();
        let created_at = rows[i].created_at.clone();
        let owner_id = match owners.get(&id) {
            Some(who) => Some(who.clone()),
            None => None,
        };
        out.push(AdminTodo { id, title, completed, created_at, owner_id, owner_email: None });
        i = i + 1;
    }
    assert(admin_rows_model(out@) =~= joined_with_owners(rows_model(all), index));
    out
}

/// The JSON object that gives a new row its title.
pub open spec fn title_object(title: Seq<char>) -> JsonModel {
    single("title"@, JsonModel::Text(title))
}

/// The JSON object that marks a row as completed or not.
pub open spec fn completed_object(completed: bool) -> JsonModel {
    single("completed"@, JsonModel::Bool(completed))
}

/// The request that inserts a todo with the given title.
pub open spec fn insert_todo(store: SupabaseClient, title: Seq<char>) -> RequestModel {
    insert_request(
        store.base_url@,
        store.api_key@,
        todos(),
        json_rendered(title_object(title)),
    )
}

/// The request that marks the row `id` as completed or not.
pub open spec fn update_todo(store: SupabaseClient, id: i64, completed: bool) -> RequestModel {
    update_request(
        store.base_url@,
        store.api_key@,
        todos(),
        id,
        json_rendered(completed_object(completed)),
    )
}

/// The request that records that `user_id` owns the row `id`: the very
/// tuple that `ownership_check` asks about.
pub open spec fn record_owner(keto: KetoClient, user_id: Seq<char>, id: i64) -> RequestModel {
    creation_request(
        keto.write_url@,
        ownership_check(user_id, id).namespace,
        ownership_check(user_id, id).object,
        ownership_check(user_id, id).relation,
        user_subject(user_id),
    )
}

/// The request that removes the record that `subject` owns the row `id`.
pub open spec fn forget_owner(keto: KetoClient, id: i64, subject: Seq<char>) -> RequestModel {
    deletion_request(keto.write_url@, todos(), signed_decimal(id as int), owner(), subject)
}

/// Where a listing of one's own todos stands.
#[derive(Clone, Copy, PartialEq, Eq, Structural, Debug)]
pub enum ListState {
    /// Waiting for the tuples that name the rows the user owns.
    Owned,
    /// Waiting for those rows.
    Rows,
}

/// Where the administrator's listing stands.
#[derive(Debug)]
pub enum AdminListState {
    /// Waiting for all rows.
    Rows,
    /// Holding the rows and waiting for the ownership records.
    Owners(Vec<Todo>),
}

/// Where a creation stands.
#[derive(Debug)]
pub enum CreateState {
    /// Waiting for the new row.
    Row,
    /// Holding the new row and waiting for its owner to be recorded.
    Owner(Todo),
}

/// Where an update stands.
#[derive(Clone, Copy, PartialEq, Eq, Structural, Debug)]
pub enum UpdateState {
    /// Waiting for the ownership check.
    Check(CheckState),
    /// Allowed, and waiting for the changed row.
    Row,
}

/// Where a deletion stands.
#[derive(Clone, Copy, PartialEq, Eq, Structural, Debug)]
pub enum DeleteState {
    /// Waiting for the ownership check.
    Check(CheckState),
    /// Allowed, and waiting for the row to be removed.
    Row,
    /// The row is gone; waiting for its ownership record to be removed.
    Tuple,
}

/// A deletion that succeeded. The row is gone; `warning` tells why its
/// ownership record may still be there.
#[derive(Clone, Copy, PartialEq, Eq, Debug)]
pub struct Deleted {
    pub warning: Option<ServiceError>,
}

/// Where the administrator's deletion stands.
#[derive(Debug)]
pub enum AdminDeleteState {
    /// Waiting for the row to be removed.
    Row,
    /// The row is gone; waiting for the list of its ownership records.
    Tuples,
    /// Removing the records one by one: the subjects still to come after the
    /// one in flight, and what went wrong so far.
    Cleanup(Vec<String>, Vec<ServiceError>),
}

/// An administrator's deletion that succeeded. The row is gone; `warnings`
/// holds every failure met while removing its ownership records, in order.
#[derive(Clone, Debug)]
pub struct Swept {
    pub warnings: Vec<ServiceError>,
}

/// What an ownership check lets an operation do.
enum Guard {
    /// The check goes on with another request.
    Ask(CheckState, HttpRequest),
    Allowed,
    Denied,
    Failed(ServiceError),
}

/// `g` is what the check of `user_id` on the row `id` comes to in state
/// `cs` on the reply `f`.
spec fn is_guard(
    g: Guard,
    keto: Option<KetoClient>,
    user_id: Seq<char>,
    id: i64,
    cs: CheckState,
    f: Fetched,
) -> bool {
    match (keto, check_move(cs, f)) {
        (None, _) => g == Guard::Failed(ServiceError::Unconfigured),
        (Some(k), CheckMove::Wait(next)) => match g {
            Guard::Ask(s, request) => s == next && request@ == request_of(
                k.read_url@,
                ownership_check(user_id, id),
                next,
            ),
            _ => false,
        },
        (Some(_), CheckMove::Finish(Err(e))) => g == Guard::Failed(e),
        (Some(_), CheckMove::Finish(Ok(allowed))) => if allowed {
            g == Guard::Allowed
        } else {
            g == Guard::Denied
        },
    }
}

/// `step` is what listing the todos of a user does in `state` on the reply
/// `f`, whose body reads as `rows`. The record store is needed only where
/// the user owns a row.
pub open spec fn is_list_step(
    step: Step<ListState, Vec<Todo>>,
    store: Option<SupabaseClient>,
    state: ListState,
    f: Fetched,
    rows: Option<Vec<Todo>>,
) -> bool {
    match state {
        ListState::Owned => match listing_result(f) {
            Err(e) => step == Step::<ListState, Vec<Todo>>::Done(Err(RepoError::Authz(e))),
            Ok(page) => if owned_ids(page.tuples).len() == 0 {
                match step {
                    Step::Done(Ok(found)) => found@.len() == 0,
                    _ => false,
                }
            } else {
                match (store, step) {
                    (None, _) => step == Step::<ListState, Vec<Todo>>::Done(
                        Err(RepoError::Store(ServiceError::Unconfigured)),
                    ),
                    (Some(s), Step::Send(next, request)) => next == ListState::Rows && request@
                        == select_request(
                        s.base_url@,
                        s.api_key@,
                        todos(),
                        rows_by_id_query(owned_ids(page.tuples)),
                    ),
                    _ => false,
                }
            },
        },
        ListState::Rows => match rows_result(f, rows, false) {
            Ok(found) => step == Step::<ListState, Vec<Todo>>::Done(Ok(found)),
            Err(e) => step == Step::<ListState, Vec<Todo>>::Done(Err(RepoError::Store(e))),
        },
    }
}

/// `step` is what the administrator's listing does in `state` on the reply
/// `f`, whose body reads as `rows`.
pub open spec fn is_admin_list_step(
    step: Step<AdminListState, Vec<AdminTodo>>,
    keto: Option<KetoClient>,
    state: AdminListState,
    f: Fetched,
    rows: Option<Vec<Todo>>,
) -> bool {
    match state {
        AdminListState::Rows => match rows_result(f, rows, false) {
            Err(e) => step == Step::<AdminListState, Vec<AdminTodo>>::Done(
                Err(RepoError::Store(e)),
            ),
            Ok(found) => match (keto, step) {
                (None, _) => step == Step::<AdminListState, Vec<AdminTodo>>::Done(
                    Err(RepoError::Authz(ServiceError::Unconfigured)),
                ),
                (Some(k), Step::Send(next, request)) => next == AdminListState::Owners(found)
                    && request@ == listing_request(k.read_url@, all_owners_query()),
                _ => false,
            },
        },
        AdminListState::Owners(found) => match listing_result(f) {
            Err(e) => step == Step::<AdminListState, Vec<AdminTodo>>::Done(
                Err(RepoError::Authz(e)),
            ),
            Ok(page) => match step {
                Step::Done(Ok(joined)) => admin_rows_model(joined@) == joined_with_owners(
                    rows_model(found@),
                    owner_index(page.tuples),
                ),
                _ => false,
            },
        },
    }
}

/// `step` is what creating a todo for `user_id` does in `state` on the reply
/// `f`, whose body reads as `rows`.
pub open spec fn is_create_step(
    step: Step<CreateState, Todo>,
    keto: Option<KetoClient>,
    user_id: Seq<char>,
    state: CreateState,
    f: Fetched,
    rows: Option<Vec<Todo>>,
) -> bool {
    match state {
        CreateState::Row => match rows_result(f, rows, true) {
            Err(e) => step == Step::<CreateState, Todo>::Done(Err(RepoError::Store(e))),
            Ok(found) => if found@.len() == 0 {
                step == Step::<CreateState, Todo>::Done(Err(RepoError::NoRowReturned))
            } else {
                match (keto, step) {
                    (None, _) => step == Step::<CreateState, Todo>::Done(
                        Err(
                            RepoError::OwnerNotRecorded {
                                id: found@[0].id,
                                cause: ServiceError::Unconfigured,
                            },
                        ),
                    ),
                    (Some(k), Step::Send(next, request)) => next == CreateState::Owner(found@[0])
                        && request@ == record_owner(k, user_id, found@[0].id),
                    _ => false,
                }
            },
        },
        CreateState::Owner(todo) => match creation_result(f) {
            Ok(_) => step == Step::<CreateState, Todo>::Done(Ok(todo)),
            Err(e) => step == Step::<CreateState, Todo>::Done(
                Err(RepoError::OwnerNotRecorded { id: todo.id, cause: e }),
            ),
        },
    }
}

/// `step` is what updating the row `id` for `user_id` does in `state` on the
/// reply `f`, whose body reads as `rows`.
pub open spec fn is_update_step(
    step: Step<UpdateState, Todo>,
    keto: Option<KetoClient>,
    store: Option<SupabaseClient>,
    user_id: Seq<char>,
    id: i64,
    completed: bool,
    state: UpdateState,
    f: Fetched,
    rows: Option<Vec<Todo>>,
) -> bool {
    match state {
        UpdateState::Check(cs) => match (keto, check_move(cs, f)) {
            (None, _) => step == Step::<UpdateState, Todo>::Done(
                Err(RepoError::Authz(ServiceError::Unconfigured)),
            ),
            (Some(k), CheckMove::Wait(next)) => match step {
                Step::Send(s, request) => s == UpdateState::Check(next) && request@
                    == request_of(k.read_url@, ownership_check(user_id, id), next),
                _ => false,
            },
            (Some(_), CheckMove::Finish(Err(e))) => step == Step::<UpdateState, Todo>::Done(
                Err(RepoError::Authz(e)),
            ),
            (Some(_), CheckMove::Finish(Ok(allowed))) => if !allowed {
                step == Step::<UpdateState, Todo>::Done(Err(RepoError::Forbidden))
            } else {
                match (store, step) {
                    (None, _) => step == Step::<UpdateState, Todo>::Done(
                        Err(RepoError::Store(ServiceError::Unconfigured)),
                    ),
                    (Some(st), Step::Send(s, request)) => s == UpdateState::Row && request@
                        == update_todo(st, id, completed),
                    _ => false,
                }
            },
        },
        UpdateState::Row => match rows_result(f, rows, false) {
            Err(e) => step == Step::<UpdateState, Todo>::Done(Err(RepoError::Store(e))),
            Ok(found) => if found@.len() == 0 {
                step == Step::<UpdateState, Todo>::Done(Err(RepoError::NotFound))
            } else {
                step == Step::<UpdateState, Todo>::Done(Ok(found@[0]))
            },
        },
    }
}

/// The request that removes the todo `id` and asks for what was removed.
pub open spec fn remove_todo(store: SupabaseClient, id: i64) -> RequestModel {
    remove_returning_request(store.base_url@, store.api_key@, todos(), id)
}

/// `step` is what deleting the row `id` for `user_id` does in `state` on the
/// reply `f`, whose body reads as `rows`. A removal that removed no row
/// ends with `NotFound`, and the ownership record is left alone.
pub open spec fn is_delete_step(
    step: Step<DeleteState, Deleted>,
    keto: Option<KetoClient>,
    store: Option<SupabaseClient>,
    user_id: Seq<char>,
    id: i64,
    state: DeleteState,
    f: Fetched,
    rows: Option<Vec<Todo>>,
) -> bool {
    match state {
        DeleteState::Check(cs) => match (keto, check_move(cs, f)) {
            (None, _) => step == Step::<DeleteState, Deleted>::Done(
                Err(RepoError::Authz(ServiceError::Unconfigured)),
            ),
            (Some(k), CheckMove::Wait(next)) => match step {
                Step::Send(s, request) => s == DeleteState::Check(next) && request@
                    == request_of(k.read_url@, ownership_check(user_id, id), next),
                _ => false,
            },
            (Some(_), CheckMove::Finish(Err(e))) => step == Step::<DeleteState, Deleted>::Done(
                Err(RepoError::Authz(e)),
            ),
            (Some(_), CheckMove::Finish(Ok(allowed))) => if !allowed {
                step == Step::<DeleteState, Deleted>::Done(Err(RepoError::Forbidden))
            } else {
                match (store, step) {
                    (None, _) => step == Step::<DeleteState, Deleted>::Done(
                        Err(RepoError::Store(ServiceError::Unconfigured)),
                    ),
                    (Some(st), Step::Send(s, request)) => s == DeleteState::Row && request@
                        == remove_todo(st, id),
                    _ => false,
                }
            },
        },
        DeleteState::Row => match rows_result(f, rows, false) {
            Err(e) => step == Step::<DeleteState, Deleted>::Done(Err(RepoError::Store(e))),
            Ok(found) => if found@.len() == 0 {
                step == Step::<DeleteState, Deleted>::Done(Err(RepoError::NotFound))
            } else {
                match (keto, step) {
                    (None, _) => step == Step::<DeleteState, Deleted>::Done(
                        Ok(Deleted { warning: Some(ServiceError::Unconfigured) }),
                    ),
                    (Some(k), Step::Send(s, request)) => s == DeleteState::Tuple && request@
                        == forget_owner(k, id, user_subject(user_id)),
                    _ => false,
                }
            },
        },
        DeleteState::Tuple => step == Step::<DeleteState, Deleted>::Done(
            Ok(
                Deleted {
                    warning: match deletion_result(f) {
                        Ok(_) => None,
                        Err(e) => Some(e),
                    },
                },
            ),
        ),
    }
}

/// The warnings after one more reply to a removal of an ownership record.
pub open spec fn warnings_after(warnings: Seq<ServiceError>, f: Fetched) -> Seq<ServiceError> {
    match deletion_result(f) {
        Ok(_) => warnings,
        Err(e) => warnings.push(e),
    }
}

/// `step` ends the administrator's deletion with the given warnings.
pub open spec fn is_swept(
    step: Step<AdminDeleteState, Swept>,
    warnings: Seq<ServiceError>,
) -> bool {
    match step {
        Step::Done(Ok(swept)) => swept.warnings@ == warnings,
        _ => false,
    }
}

/// `step` removes the record of `subjects[0]` and keeps the rest for later.
pub open spec fn is_cleanup(
    step: Step<AdminDeleteState, Swept>,
    keto: KetoClient,
    id: i64,
    subjects: Seq<Seq<char>>,
    warnings: Seq<ServiceError>,
) -> bool {
    match step {
        Step::Send(AdminDeleteState::Cleanup(pending, so_far), request) => {
            &&& subjects.len() > 0
            &&& texts(pending@) == subjects.drop_first()
            &&& so_far@ == warnings
            &&& request@ == forget_owner(keto, id, subjects[0])
        },
        _ => false,
    }
}

/// `step` is what the administrator's deletion of the row `id` does in
/// `state` on the reply `f`. Without a tuple service the deletion ends once
/// the row is gone.
pub open spec fn is_admin_delete_step(
    step: Step<AdminDeleteState, Swept>,
    keto: Option<KetoClient>,
    id: i64,
    state: AdminDeleteState,
    f: Fetched,
) -> bool {
    match state {
        AdminDeleteState::Row => match removal_result(f) {
            Err(e) => step == Step::<AdminDeleteState, Swept>::Done(Err(RepoError::Store(e))),
            Ok(_) => match keto {
                None => is_swept(step, Seq::empty()),
                Some(k) => match step {
                    Step::Send(AdminDeleteState::Tuples, request) => request@ == listing_request(
                        k.read_url@,
                        owners_of_query(id),
                    ),
                    _ => false,
                },
            },
        },
        AdminDeleteState::Tuples => match listing_result(f) {
            Err(e) => is_swept(step, seq![e]),
            Ok(page) => match keto {
                None => is_swept(step, Seq::empty()),
                Some(k) => if direct_subjects(page.tuples).len() == 0 {
                    is_swept(step, Seq::empty())
                } else {
                    is_cleanup(step, k, id, direct_subjects(page.tuples), Seq::empty())
                },
            },
        },
        AdminDeleteState::Cleanup(pending, warnings) => match keto {
            None => is_swept(step, warnings_after(warnings@, f)),
            Some(k) => if pending@.len() == 0 {
                is_swept(step, warnings_after(warnings@, f))
            } else {
                is_cleanup(step, k, id, texts(pending@), warnings_after(warnings@, f))
            },
        },
    }
}

/// Collects the direct subjects that the tuples of a page name.
pub fn page_subjects(page: &ListPage) -> (r: Vec<String>)
    ensures
        texts(r@) == direct_subjects(page@.tuples),
{
    let mut subjects: Vec<String> = Vec::new();
    let mut i: usize = 0;
    let ghost ts = page@.tuples;
    assert(ts.subrange(0, 0) =~= Seq::<TupleModel>::empty());
    assert(texts(subjects@) =~= Seq::<Seq<char>>::empty());
    while i < page.tuples.len()
        invariant
            i <= page.tuples.len(),
            ts == page@.tuples,
            texts(subjects@) == direct_subjects(ts.subrange(0, i as int)),
        decreases page.tuples.len() - i,
    {
        proof {
            let next = ts.subrange(0, i + 1);
            assert(next.drop_last() =~= ts.subrange(0, i as int));
            assert(next.last() == page.tuples@[i as int]@);
        }
        let ghost before = subjects@;
        match &page.tuples[i].subject {
            Some(SubjectRef::Id(s)) => {
                subjects.push(s.clone());
                assert(texts(subjects@) =~= texts(before).push(s@));
            },
            _ => {},
        }
        i = i + 1;
    }
    assert(ts.subrange(0, i as int) =~= ts);
    subjects
}

/// Builds the JSON object that gives a new row its title.
pub fn title_document(title: &str) -> (d: serde_json::Value)
    ensures
        json_model(d) == title_object(title@),
{
    let mut d = empty_object();
    set_member(&mut d, "title", text_value(title));
    d
}

/// Builds the JSON object that marks a row as completed or not.
pub fn completed_document(completed: bool) -> (d: serde_json::Value)
    ensures
        json_model(d) == completed_object(completed),
{
    let mut d = empty_object();
    set_member(&mut d, "completed", bool_value(completed));
    d
}

fn guard(
    keto: &Option<KetoClient>,
    user_id: &str,
    id: i64,
    cs: CheckState,
    fetched: &Fetched,
) -> (g: Guard)
    ensures
        is_guard(g, *keto, user_id@, id, cs, *fetched),
{
    let keto = match keto {
        Some(k) => k,
        None => {
            return Guard::Failed(ServiceError::Unconfigured);
        },
    };
    let p = owner_check(user_id, id);
    match keto.check(&p, cs, fetched) {
        CheckStep::Send(next, request) => Guard::Ask(next, request),
        CheckStep::Done(Ok(allowed)) => if allowed {
            Guard::Allowed
        } else {
            Guard::Denied
        },
        CheckStep::Done(Err(e)) => Guard::Failed(e),
    }
}

fn forget_owner_request(keto: &KetoClient, id: i64, subject: &str) -> (r: HttpRequest)
    ensures
        r@ == forget_owner(*keto, id, subject@),
{
    keto.delete_request("todos", render_i64(id).as_str(), "owner", subject)
}

/// The operations on todos. Each takes the clients it needs, and none keeps
/// anything between calls.
pub struct TodoRepo;

impl TodoRepo {
    /// Starts listing the todos of `user_id`: asks which rows the user owns.
    pub fn list_begin(keto: &KetoClient, user_id: &str) -> (r: (ListState, HttpRequest))
        ensures
            r.0 == ListState::Owned,
            r.1@ == listing_request(keto.read_url@, owned_query(user_id@)),
    {
        let params = ListParams {
            namespace: String::from_str("todos"),
            object: None,
            relation: Some(String::from_str("owner")),
            subject_id: Some(subject_id(user_id)),
            subject_set: None,
            page_size: Some(500),
            page_token: None,
        };
        (ListState::Owned, keto.list_request(&params))
    }

    /// Moves the listing on by one reply. A user who owns no row gets the
    /// empty list at once, and the record store is not asked.
    pub fn list(
        store: &Option<SupabaseClient>,
        state: ListState,
        fetched: &Fetched,
        rows: Option<Vec<Todo>>,
    ) -> (r: Step<ListState, Vec<Todo>>)
        ensures
            is_list_step(r, *store, state, *fetched, rows),
    {
        match state {
            ListState::Owned => match KetoClient::list_relation_tuples(fetched) {
                Err(e) => Step::Done(Err(RepoError::Authz(e))),
                Ok(page) => {
                    let ids = page_ids(&page);
                    if ids.len() == 0 {
                        Step::Done(Ok(Vec::new()))
                    } else {
                        match store {
                            None => Step::Done(Err(RepoError::Store(ServiceError::Unconfigured))),
                            Some(s) => {
                                let mut query = String::from_str(
                                    "select=id,title,completed,created_at&id=in.(",
                                );
                                query.append(join_ids(&ids).as_str());
                                query.append(")&order=created_at.desc");
                                Step::Send(ListState::Rows, s.get_request("todos", query.as_str()))
                            },
                        }
                    }
                },
            },
            ListState::Rows => match SupabaseClient::get(fetched, rows) {
                Ok(found) => Step::Done(Ok(found)),
                Err(e) => Step::Done(Err(RepoError::Store(e))),
            },
        }
    }

    /// Starts the administrator's listing: asks for all rows, newest first.
    pub fn list_all_with_owner_begin(store: &SupabaseClient) -> (r: (AdminListState, HttpRequest))
        ensures
            r.0 == AdminListState::Rows,
            r.1@ == select_request(store.base_url@, store.api_key@, todos(), all_rows_query()),
    {
        (
            AdminListState::Rows,
            store.get_request(
                "todos",
                "select=id,title,completed,created_at&order=created_at.desc",
            ),
        )
    }

    /// Moves the administrator's listing on by one reply. Every row comes
    /// out, with the owner that the first page of ownership records gives
    /// it, or with none.
    pub fn list_all_with_owner(
        keto: &Option<KetoClient>,
        state: AdminListState,
        fetched: &Fetched,
        rows: Option<Vec<Todo>>,
    ) -> (r: Step<AdminListState, Vec<AdminTodo>>)
        ensures
            is_admin_list_step(r, *keto, state, *fetched, rows),
    {
        match state {
            AdminListState::Rows => match SupabaseClient::get(fetched, rows) {
                Err(e) => Step::Done(Err(RepoError::Store(e))),
                Ok(found) => match keto {
                    None => Step::Done(Err(RepoError::Authz(ServiceError::Unconfigured))),
                    Some(k) => {
                        let params = ListParams {
                            namespace: String::from_str("todos"),
                            object: None,
                            relation: Some(String::from_str("owner")),
                            subject_id: None,
                            subject_set: None,
                            page_size: Some(1000),
                            page_token: None,
                        };
                        Step::Send(AdminListState::Owners(found), k.list_request(&params))
                    },
                },
            },
            AdminListState::Owners(found) => match KetoClient::list_relation_tuples(fetched) {
                Err(e) => Step::Done(Err(RepoError::Authz(e))),
                Ok(page) => {
                    let owners = page_owners(&page);
                    let joined = join_owners(found, &owners, Ghost(owner_index(page@.tuples)));
                    Step::Done(Ok(joined))
                },
            },
        }
    }

    /// Starts a creation: the row is written first.
    pub fn create_begin(store: &SupabaseClient, title: &str) -> (r: (CreateState, HttpRequest))
        ensures
            r.0 == CreateState::Row,
            r.1@ == insert_todo(*store, title@),
    {
        let d = title_document(title);
        (CreateState::Row, store.post_request("todos", &d))
    }

    /// Moves a creation on by one reply. Once the row exists its owner is
    /// recorded; if that fails the creation fails, though the row stays.
    pub fn create(
        keto: &Option<KetoClient>,
        user_id: &str,
        state: CreateState,
        fetched: &Fetched,
        rows: Option<Vec<Todo>>,
    ) -> (r: Step<CreateState, Todo>)
        ensures
            is_create_step(r, *keto, user_id@, state, *fetched, rows),
    {
        match state {
            CreateState::Row => match SupabaseClient::post(fetched, rows) {
                Err(e) => Step::Done(Err(RepoError::Store(e))),
                Ok(found) => {
                    let mut found = found;
                    if found.len() == 0 {
                        Step::Done(Err(RepoError::NoRowReturned))
                    } else {
                        let todo = found.remove(0);
                        match keto {
                            None => Step::Done(
                                Err(
                                    RepoError::OwnerNotRecorded {
                                        id: todo.id,
                                        cause: ServiceError::Unconfigured,
                                    },
                                ),
                            ),
                            Some(k) => {
                                let request = k.create_request(
                                    "todos",
                                    render_i64(todo.id).as_str(),
                                    "owner",
                                    subject_id(user_id).as_str(),
                                );
                                Step::Send(CreateState::Owner(todo), request)
                            },
                        }
                    }
                },
            },
            CreateState::Owner(todo) => match KetoClient::create_relation_tuple(fetched) {
                Ok(_) => Step::Done(Ok(todo)),
                Err(e) => Step::Done(Err(RepoError::OwnerNotRecorded { id: todo.id, cause: e })),
            },
        }
    }

    /// Starts an update: asks whether `user_id` owns the row.
    pub fn update_begin(keto: &KetoClient, user_id: &str, id: i64) -> (r: (
        UpdateState,
        HttpRequest,
    ))
        ensures
            r.0 == UpdateState::Check(CheckState::Candidate(0)),
            r.1@ == request_of(
                keto.read_url@,
                ownership_check(user_id@, id),
                CheckState::Candidate(0),
            ),
    {
        let p = owner_check(user_id, id);
        let (cs, request) = keto.check_begin(&p);
        (UpdateState::Check(cs), request)
    }

    /// Moves an update on by one reply. The row is changed only after the
    /// check has said that the user owns it.
    pub fn update(
        keto: &Option<KetoClient>,
        store: &Option<SupabaseClient>,
        user_id: &str,
        id: i64,
        completed: bool,
        state: UpdateState,
        fetched: &Fetched,
        rows: Option<Vec<Todo>>,
    ) -> (r: Step<UpdateState, Todo>)
        ensures
            is_update_step(r, *keto, *store, user_id@, id, completed, state, *fetched, rows),
    {
        match state {
            UpdateState::Check(cs) => match guard(keto, user_id, id, cs, fetched) {
                Guard::Ask(next, request) => Step::Send(UpdateState::Check(next), request),
                Guard::Failed(e) => Step::Done(Err(RepoError::Authz(e))),
                Guard::Denied => Step::Done(Err(RepoError::Forbidden)),
                Guard::Allowed => match store {
                    None => Step::Done(Err(RepoError::Store(ServiceError::Unconfigured))),
                    Some(s) => {
                        let d = completed_document(completed);
                        Step::Send(UpdateState::Row, s.patch_request("todos", id, &d))
                    },
                },
            },
            UpdateState::Row => match SupabaseClient::patch(fetched, rows) {
                Err(e) => Step::Done(Err(RepoError::Store(e))),
                Ok(found) => {
                    let mut found = found;
                    if found.len() == 0 {
                        Step::Done(Err(RepoError::NotFound))
                    } else {
                        Step::Done(Ok(found.remove(0)))
                    }
                },
            },
        }
    }

    /// Starts a deletion: asks whether `user_id` owns the row.
    pub fn delete_begin(keto: &KetoClient, user_id: &str, id: i64) -> (r: (
        DeleteState,
        HttpRequest,
    ))
        ensures
            r.0 == DeleteState::Check(CheckState::Candidate(0)),
            r.1@ == request_of(
                keto.read_url@,
                ownership_check(user_id@, id),
                CheckState::Candidate(0),
            ),
    {
        let p = owner_check(user_id, id);
        let (cs, request) = keto.check_begin(&p);
        (DeleteState::Check(cs), request)
    }

    /// Moves a deletion on by one reply, whose body reads as `rows`. The row
    /// is removed only after the check has said that the user owns it. A
    /// removal that removed nothing ends with `NotFound`. Once the row is
    /// gone the deletion succeeds, whatever becomes of the ownership record.
    pub fn delete(
        keto: &Option<KetoClient>,
        store: &Option<SupabaseClient>,
        user_id: &str,
        id: i64,
        state: DeleteState,
        fetched: &Fetched,
        rows: Option<Vec<Todo>>,
    ) -> (r: Step<DeleteState, Deleted>)
        ensures
            is_delete_step(r, *keto, *store, user_id@, id, state, *fetched, rows),
    {
        match state {
            DeleteState::Check(cs) => match guard(keto, user_id, id, cs, fetched) {
                Guard::Ask(next, request) => Step::Send(DeleteState::Check(next), request),
                Guard::Failed(e) => Step::Done(Err(RepoError::Authz(e))),
                Guard::Denied => Step::Done(Err(RepoError::Forbidden)),
                Guard::Allowed => match store {
                    None => Step::Done(Err(RepoError::Store(ServiceError::Unconfigured))),
                    Some(s) => Step::Send(
                        DeleteState::Row,
                        s.delete_returning_request("todos", id),
                    ),
                },
            },
            DeleteState::Row => match SupabaseClient::delete_returning(fetched, rows) {
                Err(e) => Step::Done(Err(RepoError::Store(e))),
                Ok(found) => {
                    if found.len() == 0 {
                        Step::Done(Err(RepoError::NotFound))
                    } else {
                        match keto {
                            None => Step::Done(
                                Ok(Deleted { warning: Some(ServiceError::Unconfigured) }),
                            ),
                            Some(k) => Step::Send(
                                DeleteState::Tuple,
                                forget_owner_request(k, id, subject_id(user_id).as_str()),
                            ),
                        }
                    }
                },
            },
            DeleteState::Tuple => {
                let warning = match KetoClient::delete_relation_tuple(fetched) {
                    Ok(_) => None,
                    Err(e) => Some(e),
                };
                Step::Done(Ok(Deleted { warning }))
            },
        }
    }

    /// Starts the administrator's deletion: the row is removed without any
    /// check.
    pub fn delete_any_begin(store: &SupabaseClient, id: i64) -> (r: (AdminDeleteState, HttpRequest))
        ensures
            r.0 == AdminDeleteState::Row,
            r.1@ == remove_request(store.base_url@, store.api_key@, todos(), id),
    {
        (AdminDeleteState::Row, store.delete_request("todos", id))
    }

    /// Moves the administrator's deletion on by one reply. Once the row is
    /// gone, every ownership record of it is removed, whoever holds it; what
    /// fails on the way is noted and never fails the deletion.
    pub fn delete_any(
        keto: &Option<KetoClient>,
        id: i64,
        state: AdminDeleteState,
        fetched: &Fetched,
    ) -> (r: Step<AdminDeleteState, Swept>)
        ensures
            is_admin_delete_step(r, *keto, id, state, *fetched),
    {
        match state {
            AdminDeleteState::Row => match SupabaseClient::delete(fetched) {
                Err(e) => Step::Done(Err(RepoError::Store(e))),
                Ok(_) => match keto {
                    None => Step::Done(Ok(Swept { warnings: Vec::new() })),
                    Some(k) => {
                        let params = ListParams {
                            namespace: String::from_str("todos"),
                            object: Some(render_i64(id)),
                            relation: Some(String::from_str("owner")),
                            subject_id: None,
                            subject_set: None,
                            page_size: Some(100),
                            page_token: None,
                        };
                        Step::Send(AdminDeleteState::Tuples, k.list_request(&params))
                    },
                },
            },
            AdminDeleteState::Tuples => match KetoClient::list_relation_tuples(fetched) {
                Err(e) => {
                    let mut warnings: Vec<ServiceError> = Vec::new();
                    warnings.push(e);
                    assert(warnings@ =~= seq![e]);
                    Step::Done(Ok(Swept { warnings }))
                },
                Ok(page) => match keto {
                    None => Step::Done(Ok(Swept { warnings: Vec::new() })),
                    Some(k) => {
                        let subjects = page_subjects(&page);
                        TodoRepo::next_cleanup(k, id, subjects, Vec::new())
                    },
                },
            },
            AdminDeleteState::Cleanup(pending, warnings) => {
                let mut warnings = warnings;
                match KetoClient::delete_relation_tuple(fetched) {
                    Ok(_) => {},
                    Err(e) => {
                        warnings.push(e);
                    },
                }
                match keto {
                    None => Step::Done(Ok(Swept { warnings })),
                    Some(k) => TodoRepo::next_cleanup(k, id, pending, warnings),
                }
            },
        }
    }

    fn next_cleanup(
        keto: &KetoClient,
        id: i64,
        subjects: Vec<String>,
        warnings: Vec<ServiceError>,
    ) -> (r: Step<AdminDeleteState, Swept>)
        ensures
            if subjects@.len() == 0 {
                is_swept(r, warnings@)
            } else {
                is_cleanup(r, *keto, id, texts(subjects@), warnings@)
            },
    {
        let mut subjects = subjects;
        if subjects.len() == 0 {
            Step::Done(Ok(Swept { warnings }))
        } else {
            let ghost all = subjects@;
            let first = subjects.remove(0);
            let request = forget_owner_request(keto, id, first.as_str());
            assert(texts(subjects@) =~= texts(all).drop_first());
            Step::Send(AdminDeleteState::Cleanup(subjects, warnings), request)
        }
    }
}

/// The tuple records an owner for the row `id`.
pub open spec fn names_row(t: TupleModel, id: i64) -> bool {
    owner_entry(t) is Some && owner_entry(t).unwrap().0 == id
}

/// The index knows a row exactly when some tuple records an owner for it.
/// A row that no tuple names has no owner in the listing.
pub proof fn lemma_owner_known_iff_recorded(ts: Seq<TupleModel>, id: i64)
    ensures
        owner_index(ts).contains_key(id) <==> exists|i: int|
            0 <= i < ts.len() && names_row(#[trigger] ts[i], id),
    decreases ts.len(),
{
    if ts.len() > 0 {
        let head = ts.drop_last();
        lemma_owner_known_iff_recorded(head, id);
        if names_row(ts.last(), id) {
            assert(names_row(ts[ts.len() - 1], id));
        } else {
            if owner_index(head).contains_key(id) {
                let i = choose|i: int| 0 <= i < head.len() && names_row(#[trigger] head[i], id);
                assert(head[i] == ts[i]);
                assert(names_row(ts[i], id));
            }
            if exists|i: int| 0 <= i < ts.len() && names_row(#[trigger] ts[i], id) {
                let i = choose|i: int| 0 <= i < ts.len() && names_row(#[trigger] ts[i], id);
                assert(i < head.len());
                assert(head[i] == ts[i]);
                assert(names_row(head[i], id));
            }
        }
    }
}

/// Where several tuples record an owner for a row, the index gives the owner
/// that the last of them records.
pub proof fn lemma_owner_is_last_recorded(ts: Seq<TupleModel>, id: i64, i: int)
    requires
        0 <= i < ts.len(),
        names_row(ts[i], id),
        forall|j: int| i < j < ts.len() ==> !names_row(#[trigger] ts[j], id),
    ensures
        owner_index(ts).contains_key(id),
        owner_index(ts)[id] == owner_entry(ts[i]).unwrap().1,
    decreases ts.len(),
{
    let head = ts.drop_last();
    if i < ts.len() - 1 {
        assert(!names_row(ts[ts.len() - 1], id));
        assert(head[i] == ts[i]);
        assert forall|j: int| i < j < head.len() implies !names_row(#[trigger] head[j], id) by {
            assert(head[j] == ts[j]);
        }
        lemma_owner_is_last_recorded(head, id, i);
    }
}

/// A user whom the check does not find to be the owner is refused, whatever
/// the row is: where the check answers "not allowed", an update and a
/// deletion both end with `Forbidden`, and neither sends a request to the
/// record store.
pub proof fn lemma_non_owner_is_refused(
    checked: CheckStep,
    updated: Step<UpdateState, Todo>,
    deleted: Step<DeleteState, Deleted>,
    keto: KetoClient,
    store: Option<SupabaseClient>,
    user_id: Seq<char>,
    id: i64,
    completed: bool,
    cs: CheckState,
    f: Fetched,
    rows: Option<Vec<Todo>>,
)
    requires
        is_check_step(checked, keto.read_url@, ownership_check(user_id, id), cs, f),
        checked == CheckStep::Done(Ok(false)),
        is_update_step(
            updated,
            Some(keto),
            store,
            user_id,
            id,
            completed,
            UpdateState::Check(cs),
            f,
            rows,
        ),
        is_delete_step(deleted, Some(keto), store, user_id, id, DeleteState::Check(cs), f, rows),
    ensures
        updated == Step::<UpdateState, Todo>::Done(Err(RepoError::Forbidden)),
        deleted == Step::<DeleteState, Deleted>::Done(Err(RepoError::Forbidden)),
{
}

/// The record store is reached only through a check that said "allowed":
/// an update or a deletion that waits for its check and then turns to the
/// row does so on a reply that settles the check with "allowed".
pub proof fn lemma_store_waits_for_check(
    updated: Step<UpdateState, Todo>,
    deleted: Step<DeleteState, Deleted>,
    keto: Option<KetoClient>,
    store: Option<SupabaseClient>,
    user_id: Seq<char>,
    id: i64,
    completed: bool,
    cs: CheckState,
    f: Fetched,
    rows: Option<Vec<Todo>>,
)
    requires
        is_update_step(
            updated,
            keto,
            store,
            user_id,
            id,
            completed,
            UpdateState::Check(cs),
            f,
            rows,
        ),
        is_delete_step(deleted, keto, store, user_id, id, DeleteState::Check(cs), f, rows),
    ensures
        updated matches Step::Send(UpdateState::Row, _) ==> check_move(cs, f) == CheckMove::Finish(
            Ok(true),
        ),
        deleted matches Step::Send(DeleteState::Row, _) ==> check_move(cs, f) == CheckMove::Finish(
            Ok(true),
        ),
{
}

/// A row that is not there cannot be changed or removed: where the record
/// store answers with success and no row, an update and a deletion both end
/// with `NotFound`, which is neither a refusal nor a failure of the store,
/// and the deletion sends no request for the ownership record.
pub proof fn lemma_missing_row_is_not_found(
    updated: Step<UpdateState, Todo>,
    deleted: Step<DeleteState, Deleted>,
    keto: Option<KetoClient>,
    store: Option<SupabaseClient>,
    user_id: Seq<char>,
    id: i64,
    completed: bool,
    f: Fetched,
    rows: Option<Vec<Todo>>,
)
    requires
        rows_result(f, rows, false) is Ok,
        rows_result(f, rows, false)->Ok_0@.len() == 0,
        is_update_step(updated, keto, store, user_id, id, completed, UpdateState::Row, f, rows),
        is_delete_step(deleted, keto, store, user_id, id, DeleteState::Row, f, rows),
    ensures
        updated == Step::<UpdateState, Todo>::Done(Err(RepoError::NotFound)),
        deleted == Step::<DeleteState, Deleted>::Done(Err(RepoError::NotFound)),
{
}

/// Once the row is gone a deletion succeeds, whatever comes of removing the
/// ownership record: a failure there is carried as a warning.
pub proof fn lemma_delete_survives_cleanup_failure(
    step: Step<DeleteState, Deleted>,
    keto: Option<KetoClient>,
    store: Option<SupabaseClient>,
    user_id: Seq<char>,
    id: i64,
    f: Fetched,
    rows: Option<Vec<Todo>>,
)
    requires
        is_delete_step(step, keto, store, user_id, id, DeleteState::Tuple, f, rows),
    ensures
        step is Done,
        step->Done_0 is Ok,
        deletion_result(f) is Err ==> step->Done_0->Ok_0.warning == Some(
            deletion_result(f)->Err_0,
        ),
        deletion_result(f) is Ok ==> step->Done_0->Ok_0.warning is None,
{
}

/// A user who owns no row gets the empty list from the listing of tuples
/// alone: no request to the record store follows, and none is needed.
pub proof fn lemma_owner_of_nothing_lists_nothing(
    step: Step<ListState, Vec<Todo>>,
    store: Option<SupabaseClient>,
    f: Fetched,
    rows: Option<Vec<Todo>>,
)
    requires
        is_list_step(step, store, ListState::Owned, f, rows),
        listing_result(f) is Ok,
        listing_result(f)->Ok_0.tuples.len() == 0,
    ensures
        step is Done,
        step->Done_0 is Ok,
        step->Done_0->Ok_0@.len() == 0,
{
    assert(owned_ids(listing_result(f)->Ok_0.tuples).len() == 0);
}

/// The tuple that a creation records for a new row is the tuple that a later
/// check of the same user on that row asks about, field by field; where the
/// check falls back on a listing, the listing asks for that tuple too; and
/// the row id that is written into the tuple reads back as that id.
pub proof fn lemma_recorded_owner_is_checked_owner(keto: KetoClient, user_id: Seq<char>, id: i64)
    ensures
        record_owner(keto, user_id, id).body == Some(
            json_rendered(
                tuple_object(
                    ownership_check(user_id, id).namespace,
                    ownership_check(user_id, id).object,
                    ownership_check(user_id, id).relation,
                    ownership_check(user_id, id).subject_id.unwrap(),
                ),
            ),
        ),
        fallback_query(ownership_check(user_id, id)).namespace == ownership_check(
            user_id,
            id,
        ).namespace,
        fallback_query(ownership_check(user_id, id)).object == Some(
            ownership_check(user_id, id).object,
        ),
        fallback_query(ownership_check(user_id, id)).relation == Some(
            ownership_check(user_id, id).relation,
        ),
        fallback_query(ownership_check(user_id, id)).subject_id == Some(user_subject(user_id)),
        parsed_i64(ownership_check(user_id, id).object) == Some(id),
{
    lemma_render_then_parse(id);
}

} // verus!

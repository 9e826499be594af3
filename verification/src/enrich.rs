//! Email addresses for the administrator's listing.
//!
//! Every row that has an owner gets the owner's email address from the
//! identity service. Each owner is looked up once: what the lookup gave is
//! remembered and reused for the owner's other rows. A lookup that fails
//! leaves the address open and never fails the listing.

use vstd::prelude::*;
use vstd::string::*;
use vstd::hash_map::StringHashMap;
use crate::http::{text_of, Fetched, HttpRequest, ServiceError};
use crate::json::JsonModel;
use crate::kratos::{
    email_of, identity_move, identity_request, read_email, IdentityMove, IdentityStep,
    KratosClient,
};
use crate::models::{AdminTodo, AdminTodoModel};
use crate::todo_repo::admin_rows_model;

verus! {

/// What is known of the owners so far: for each owner that was looked up,
/// the email address that was found, if any.
pub type Known = StringHashMap<Option<String>>;

/// Where the gathering of email addresses stands: the rows, the row whose
/// owner is being looked up, the path under which the lookup waits, and
/// what is known so far.
pub struct Enrichment {
    pub todos: Vec<AdminTodo>,
    pub index: usize,
    pub form: usize,
    pub known: Known,
}

/// What the gathering does next: send a request, or end with the rows.
pub enum EnrichStep {
    Send(Enrichment, HttpRequest),
    Done(Vec<AdminTodo>),
}

/// The contents of what is known.
pub open spec fn known_model(known: Map<Seq<char>, Option<String>>) -> Map<
    Seq<char>,
    Option<Seq<char>>,
> {
    known.map_values(|e: Option<String>| text_of(e))
}

/// The row with the given email address in place of the one it had.
pub open spec fn with_email(row: AdminTodoModel, email: Option<Seq<char>>) -> AdminTodoModel {
    AdminTodoModel { row: row.row, owner_id: row.owner_id, owner_email: email }
}

/// The rows after everything known was filled in from row `i` on, and the
/// row at which that stopped: the first whose owner is not known yet, or
/// the number of rows where there is none. Rows without an owner are passed
/// over.
pub open spec fn settled(
    todos: Seq<AdminTodoModel>,
    i: int,
    known: Map<Seq<char>, Option<Seq<char>>>,
) -> (Seq<AdminTodoModel>, int)
    decreases todos.len() - i,
{
    if i < 0 || i >= todos.len() {
        (todos, todos.len() as int)
    } else {
        match todos[i].owner_id {
            None => settled(todos, i + 1, known),
            Some(owner) => if known.contains_key(owner) {
                settled(todos.update(i, with_email(todos[i], known[owner])), i + 1, known)
            } else {
                (todos, i)
            },
        }
    }
}

/// `step` goes on from row `i`: it fills in what is known and looks up the
/// first owner that is not, under the first path; with no such owner left
/// it ends with the rows.
pub open spec fn is_settle_step(
    step: EnrichStep,
    admin_url: Seq<char>,
    todos: Seq<AdminTodoModel>,
    i: int,
    known: Map<Seq<char>, Option<Seq<char>>>,
) -> bool {
    let (rows, stop) = settled(todos, i, known);
    if stop >= rows.len() {
        match step {
            EnrichStep::Done(out) => admin_rows_model(out@) == rows,
            _ => false,
        }
    } else {
        match step {
            EnrichStep::Send(e, request) => {
                &&& admin_rows_model(e.todos@) == rows
                &&& e.index == stop
                &&& e.form == 0
                &&& known_model(e.known@) == known
                &&& rows[stop].owner_id is Some
                &&& request@ == identity_request(admin_url, rows[stop].owner_id.unwrap(), 0)
            },
            _ => false,
        }
    }
}

/// The email address that a finished lookup gives.
pub open spec fn looked_up(result: Result<JsonModel, ServiceError>) -> Option<
    Seq<char>,
> {
    match result {
        Ok(v) => email_of(v),
        Err(_) => None,
    }
}

/// `step` is how the gathering starts. Without an identity service the rows
/// come back as they are.
pub open spec fn is_enrich_start(
    step: EnrichStep,
    kratos: Option<KratosClient>,
    todos: Vec<AdminTodo>,
) -> bool {
    match kratos {
        None => step == EnrichStep::Done(todos),
        Some(k) => is_settle_step(
            step,
            k.admin_url@,
            admin_rows_model(todos@),
            0,
            Map::empty(),
        ),
    }
}

/// `state` waits for the lookup of an owner: its row exists and has one.
pub open spec fn is_waiting(state: Enrichment) -> bool {
    state.index < state.todos@.len() && state.todos@[state.index as int].owner_id is Some
}

/// `step` is what the gathering does in `state` on the reply `f`. A state
/// that waits for no lookup ends with its rows as they are, and so does
/// every state where there is no identity service.
pub open spec fn is_enrich_step(
    step: EnrichStep,
    kratos: Option<KratosClient>,
    state: Enrichment,
    f: Fetched,
) -> bool {
    if kratos is None || !is_waiting(state) {
        step == EnrichStep::Done(state.todos)
    } else {
        let kratos = kratos.unwrap();
        let rows = admin_rows_model(state.todos@);
        let owner = rows[state.index as int].owner_id.unwrap();
        match identity_move(state.form, f) {
            IdentityMove::Wait(next) => match step {
                EnrichStep::Send(e, request) => {
                    &&& e.todos == state.todos
                    &&& e.index == state.index
                    &&& e.form == next
                    &&& e.known == state.known
                    &&& request@ == identity_request(kratos.admin_url@, owner, next as int)
                },
                _ => false,
            },
            IdentityMove::Finish(result) => is_settle_step(
                step,
                kratos.admin_url@,
                rows.update(
                    state.index as int,
                    with_email(rows[state.index as int], looked_up(result)),
                ),
                state.index + 1,
                known_model(state.known@).insert(owner, looked_up(result)),
            ),
        }
    }
}

fn find_known(known: &Known, owner: &String) -> (r: Option<Option<String>>)
    ensures
        match r {
            Some(email) => known_model(known@).contains_key(owner@) && known_model(
                known@,
            )[owner@] == text_of(email),
            None => !known_model(known@).contains_key(owner@),
        },
{
    match known.get(owner.as_str()) {
        Some(email) => Some(
            match email {
                Some(e) => Some(e.clone()),
                None => None,
            },
        ),
        None => None,
    }
}

fn copy_with_email(row: &AdminTodo, email: Option<String>) -> (r: AdminTodo)
    ensures
        r@ == with_email(row@, text_of(email)),
{
    AdminTodo {
        id: row.id,
        title: row.title.clone(),
        completed: row.completed,
        created_at: row.created_at.clone(),
        owner_id: match &row.owner_id {
            Some(o) => Some(o.clone()),
            None => None,
        },
        owner_email: email,
    }
}

fn settle(kratos: &KratosClient, todos: Vec<AdminTodo>, start: usize, known: Known) -> (r:
    EnrichStep)
    ensures
        is_settle_step(
            r,
            kratos.admin_url@,
            admin_rows_model(todos@),
            start as int,
            known_model(known@),
        ),
{
    let ghost target = settled(admin_rows_model(todos@), start as int, known_model(known@));
    let mut list = todos;
    let mut i: usize = start;
    while i < list.len()
        invariant
            target == settled(admin_rows_model(todos@), start as int, known_model(known@)),
            settled(admin_rows_model(list@), i as int, known_model(known@)) == target,
        decreases list.len() - i,
    {
        let ghost rows = admin_rows_model(list@);
        assert(rows[i as int] == list@[i as int]@);
        let owner = match &list[i].owner_id {
            Some(o) => Some(o.clone()),
            None => None,
        };
        match owner {
            None => {},
            Some(owner) => match find_known(&known, &owner) {
                Some(email) => {
                    let filled = copy_with_email(&list[i], email);
                    list.set(i, filled);
                    assert(admin_rows_model(list@) =~= rows.update(
                        i as int,
                        with_email(rows[i as int], text_of(email)),
                    ));
                },
                None => {
                    let (form, request) = kratos.get_identity_begin(owner.as_str());
                    assert(target == (rows, i as int));
                    return EnrichStep::Send(
                        Enrichment { todos: list, index: i, form, known },
                        request,
                    );
                },
            },
        }
        i = i + 1;
    }
    EnrichStep::Done(list)
}

/// Starts gathering the email addresses of the owners of `todos`.
pub fn enrich_begin(kratos: &Option<KratosClient>, todos: Vec<AdminTodo>) -> (r: EnrichStep)
    ensures
        is_enrich_start(r, *kratos, todos),
{
    match kratos {
        None => EnrichStep::Done(todos),
        Some(k) => {
            let known: Known = StringHashMap::new();
            assert(known_model(known@) =~= Map::empty());
            settle(k, todos, 0, known)
        },
    }
}

/// Moves the gathering on by one reply.
pub fn enrich(kratos: &Option<KratosClient>, state: Enrichment, fetched: &Fetched) -> (r:
    EnrichStep)
    ensures
        is_enrich_step(r, *kratos, state, *fetched),
{
    let Enrichment { todos, index, form, known } = state;
    let kratos = match kratos {
        Some(k) => k,
        None => {
            return EnrichStep::Done(todos);
        },
    };
    if index >= todos.len() {
        return EnrichStep::Done(todos);
    }
    let ghost rows = admin_rows_model(todos@);
    assert(rows[index as int] == todos@[index as int]@);
    let owner = match &todos[index].owner_id {
        Some(o) => o.clone(),
        None => {
            return EnrichStep::Done(todos);
        },
    };
    match kratos.get_identity(owner.as_str(), form, fetched) {
        IdentityStep::Send(next, request) => EnrichStep::Send(
            Enrichment { todos, index, form: next, known },
            request,
        ),
        IdentityStep::Done(result) => {
            let email = match &result {
                Ok(v) => read_email(v),
                Err(_) => None,
            };
            let remembered = match &email {
                Some(e) => Some(e.clone()),
                None => None,
            };
            let ghost found = text_of(email);
            let mut todos = todos;
            let mut known = known;
            let ghost before = known@;
            let filled = copy_with_email(&todos[index], email);
            todos.set(index, filled);
            let ghost key = owner@;
            known.insert(owner, remembered);
            assert(admin_rows_model(todos@) =~= rows.update(
                index as int,
                with_email(rows[index as int], found),
            ));
            assert(known_model(known@) =~= known_model(before).insert(key, found));
            settle(kratos, todos, index + 1, known)
        },
    }
}

} // verus!

//! The rows that the record store keeps and the payloads that callers send.

use vstd::prelude::*;

verus! {

/// A todo row as the record store returns it.
#[derive(Clone, Debug)]
pub struct Todo {
    pub id: i64,
    pub title: String,
    pub completed: bool,
    pub created_at: String,
}

/// A todo row together with its owner, for the administrator's listing.
#[derive(Clone, Debug)]
pub struct AdminTodo {
    pub id: i64,
    pub title: String,
    pub completed: bool,
    pub created_at: String,
    pub owner_id: Option<String>,
    pub owner_email: Option<String>,
}

/// The payload that creates a todo.
#[derive(Clone, Debug)]
pub struct CreateTodo {
    pub title: String,
}

/// The payload that updates a todo.
#[derive(Clone, Copy, Debug)]
pub struct UpdateTodo {
    pub completed: bool,
}

/// A user row as the record store returns it.
#[derive(Clone, Debug)]
pub struct User {
    pub id: u32,
    pub name: String,
}

/// The payload that creates a user.
#[derive(Clone, Debug)]
pub struct CreateUser {
    pub name: String,
}

/// The mathematical content of a todo row.
pub struct TodoModel {
    pub id: i64,
    pub title: Seq<char>,
    pub completed: bool,
    pub created_at: Seq<char>,
}

impl View for Todo {
    type V = TodoModel;

    open spec fn view(&self) -> TodoModel {
        TodoModel {
            id: self.id,
            title: self.title@,
            completed: self.completed,
            created_at: self.created_at@,
        }
    }
}

/// The mathematical content of a row of the administrator's listing.
pub struct AdminTodoModel {
    pub row: TodoModel,
    pub owner_id: Option<Seq<char>>,
    pub owner_email: Option<Seq<char>>,
}

impl View for AdminTodo {
    type V = AdminTodoModel;

    open spec fn view(&self) -> AdminTodoModel {
        AdminTodoModel {
            row: TodoModel {
                id: self.id,
                title: self.title@,
                completed: self.completed,
                created_at: self.created_at@,
            },
            owner_id: match self.owner_id {
                Some(s) => Some(s@),
                None => None,
            },
            owner_email: match self.owner_email {
                Some(s) => Some(s@),
                None => None,
            },
        }
    }
}

/// The contents of a list of rows, in order.
pub open spec fn rows_model(rows: Seq<Todo>) -> Seq<TodoModel> {
    rows.map_values(|t: Todo| t@)
}

} // verus!

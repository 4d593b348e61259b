//! The todo record and its mathematical view.

use vstd::prelude::*;

verus! {

/// The instant that stands for "not finished": zero seconds since the epoch.
pub const EPOCH: i64 = 0;

/// One todo record. Instants are whole seconds since the Unix epoch.
#[derive(Clone, Debug, PartialEq, Eq)]
pub struct TodoItem {
    /// Identity assigned by the store; never changed after creation.
    pub id: u64,
    /// Title of the todo.
    pub title: String,
    /// Free text body.
    pub content: String,
    /// Whether the task is done.
    pub done: bool,
    /// Ordering weight: 0 is the most important.
    pub priority: u16,
    /// When the record was created; written once.
    pub creation_date: i64,
    /// When the task should be finished.
    pub due_date: i64,
    /// When the task was finished; `EPOCH` while it is not done.
    pub finish_date: i64,
}

/// What a record holds, as mathematical values.
pub struct Todo {
    pub id: int,
    pub title: Seq<char>,
    pub content: Seq<char>,
    pub done: bool,
    pub priority: int,
    pub creation_date: int,
    pub due_date: int,
    pub finish_date: int,
}

impl View for TodoItem {
    type V = Todo;

    open spec fn view(&self) -> Todo {
        Todo {
            id: self.id as int,
            title: self.title@,
            content: self.content@,
            done: self.done,
            priority: self.priority as int,
            creation_date: self.creation_date as int,
            due_date: self.due_date as int,
            finish_date: self.finish_date as int,
        }
    }
}

/// Search parameters of the plain done/not-done filter.
#[derive(Clone, Copy, Debug, PartialEq, Eq)]
pub struct SearchParams {
    /// Only records whose `done` flag equals this, when present.
    pub done: Option<bool>,
}

} // verus!

//! What each operation on the service answers, once the store has done its
//! part: the reply envelope and its messages.

use vstd::prelude::*;
use crate::record::{Todo, TodoItem};
use crate::text::{decimal, push_decimal};

verus! {

/// The reply to one request: `status` is "ok" for the first three, "error"
/// with a message for the last.
#[derive(Clone, Debug, PartialEq, Eq)]
pub enum Reply {
    /// A list of records.
    Items(Vec<TodoItem>),
    /// One record.
    Item(TodoItem),
    /// Success with nothing to return.
    Done,
    /// Failure, with the message to show.
    Failed(String),
}

/// A reply as a mathematical value.
pub enum Envelope {
    Items(Seq<Todo>),
    Item(Todo),
    Done,
    Failed(Seq<char>),
}

/// The records of a list, as mathematical values.
pub open spec fn todos_view(items: Seq<TodoItem>) -> Seq<Todo> {
    items.map_values(|t: TodoItem| t@)
}

impl View for Reply {
    type V = Envelope;

    open spec fn view(&self) -> Envelope {
        match self {
            Reply::Items(v) => Envelope::Items(todos_view(v@)),
            Reply::Item(t) => Envelope::Item(t@),
            Reply::Done => Envelope::Done,
            Reply::Failed(m) => Envelope::Failed(m@),
        }
    }
}

impl Reply {
    /// Whether the reply reports success.
    pub open spec fn is_ok_spec(&self) -> bool {
        !(self is Failed)
    }

    /// Whether the reply reports success: the envelope's `status` is "ok".
    #[verifier::when_used_as_spec(is_ok_spec)]
    pub fn is_ok(&self) -> (r: bool)
        ensures
            r == self.is_ok_spec(),
    {
        match self {
            Reply::Failed(_) => false,
            _ => true,
        }
    }
}

/// The message for an update or delete that found no record with `id`.
pub open spec fn not_found_message(id: int) -> Seq<char> {
    "Todo with ID "@ + decimal(id) + " does not exist"@
}

/// The message for a request body that is not a valid record.
pub open spec fn invalid_json_message(detail: Seq<char>) -> Seq<char> {
    "Invalid JSON: "@ + detail
}

/// The reply to an update or delete of record `id` that affected
/// `affected` rows, or failed in the store with a message.
pub open spec fn write_envelope(id: int, result: Result<nat, Seq<char>>) -> Envelope {
    match result {
        Ok(n) => if n == 0 { Envelope::Failed(not_found_message(id)) } else { Envelope::Done },
        Err(m) => Envelope::Failed(m),
    }
}

/// The reply to a listing: the rows the store returned, or its error.
pub fn list_reply(result: Result<Vec<TodoItem>, String>) -> (r: Reply)
    ensures
        match result {
            Ok(items) => r@ == Envelope::Items(todos_view(items@)),
            Err(m) => r@ == Envelope::Failed(m@),
        },
{
    match result {
        Ok(items) => Reply::Items(items),
        Err(m) => Reply::Failed(m),
    }
}

/// The reply to a read by id: the record, or the store's error (a missing
/// record is the store's "no row" error).
pub fn get_reply(result: Result<TodoItem, String>) -> (r: Reply)
    ensures
        match result {
            Ok(item) => r@ == Envelope::Item(item@),
            Err(m) => r@ == Envelope::Failed(m@),
        },
{
    match result {
        Ok(item) => Reply::Item(item),
        Err(m) => Reply::Failed(m),
    }
}

/// Builds the message for a missing record `id`.
pub fn not_found_text(id: i64) -> (r: String)
    ensures
        r@ == not_found_message(id as int),
{
    let mut s = String::from_str("Todo with ID ");
    push_decimal(&mut s, id);
    s.append(" does not exist");
    s
}

/// The reply to an update or delete of record `id`: zero rows affected means
/// that the record does not exist.
pub fn write_reply(id: i64, result: Result<u64, String>) -> (r: Reply)
    ensures
        r@ == write_envelope(
            id as int,
            match result {
                Ok(n) => Ok(n as nat),
                Err(m) => Err(m@),
            },
        ),
{
    match result {
        Ok(n) => if n == 0 { Reply::Failed(not_found_text(id)) } else { Reply::Done },
        Err(m) => Reply::Failed(m),
    }
}

/// The reply to a create: success once the store has added the record,
/// else the store's error.
pub fn create_reply(result: Result<u64, String>) -> (r: Reply)
    ensures
        match result {
            Ok(_) => r@ == Envelope::Done,
            Err(m) => r@ == Envelope::Failed(m@),
        },
{
    match result {
        Ok(_) => Reply::Done,
        Err(m) => Reply::Failed(m),
    }
}

/// The reply to a request whose body could not be read as a record.
pub fn invalid_json_reply(detail: &str) -> (r: Reply)
    ensures
        r@ == Envelope::Failed(invalid_json_message(detail@)),
{
    let mut s = String::from_str("Invalid JSON: ");
    s.append(detail);
    Reply::Failed(s)
}

/// A record rewritten from `payload`: id and creation date stay those of
/// `existing`, every other field is the payload's.
pub open spec fn merged(existing: Todo, payload: Todo) -> Todo {
    Todo {
        id: existing.id,
        title: payload.title,
        content: payload.content,
        done: payload.done,
        priority: payload.priority,
        creation_date: existing.creation_date,
        due_date: payload.due_date,
        finish_date: payload.finish_date,
    }
}

/// The record that an update of `existing` with `payload` leaves behind.
pub fn merge_update(existing: &TodoItem, payload: TodoItem) -> (r: TodoItem)
    ensures
        r@ == merged(existing@, payload@),
{
    TodoItem {
        id: existing.id,
        title: payload.title,
        content: payload.content,
        done: payload.done,
        priority: payload.priority,
        creation_date: existing.creation_date,
        due_date: payload.due_date,
        finish_date: payload.finish_date,
    }
}

} // verus!

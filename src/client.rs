//! The desktop client's side: reading the service's replies, the addresses
//! it calls, and the rules by which it sets the finish date when a record's
//! completion changes. A toggle or an update reads the record first, decides
//! here, then writes the whole record back. The caller reads the clock and
//! hands its reading in as `now`, in whole seconds since the epoch.

use vstd::prelude::*;
use crate::record::{Todo, TodoItem, EPOCH};
use crate::text::{decimal, digits, push_decimal, push_digits};

verus! {

/// A reply of the service as the client reads it.
#[derive(Clone, Debug, PartialEq, Eq)]
pub struct ApiResponse<T> {
    pub status: String,
    pub items: Option<T>,
    pub item: Option<T>,
    pub message: Option<String>,
}

/// The three kinds of `status` a reply may carry.
#[derive(Clone, Copy, Debug, PartialEq, Eq, Structural)]
pub enum Status {
    Success,
    Failure,
    Unexpected,
}

/// The kind of a `status` text.
pub open spec fn status_of(s: Seq<char>) -> Status {
    if s == "ok"@ {
        Status::Success
    } else if s == "error"@ {
        Status::Failure
    } else {
        Status::Unexpected
    }
}

/// Reads a reply's `status` text.
pub fn read_status(s: &String) -> (r: Status)
    ensures
        r == status_of(s@),
{
    if *s == String::from_str("ok") {
        Status::Success
    } else if *s == String::from_str("error") {
        Status::Failure
    } else {
        Status::Unexpected
    }
}

/// The error a failed reply turns into: the service's message (or
/// "Unknown error" without one) for an "error" status, else the status named
/// as unexpected.
pub open spec fn failure_text(status: Seq<char>, message: Option<String>) -> Seq<char> {
    if status == "error"@ {
        match message {
            Some(m) => m@,
            None => "Unknown error"@,
        }
    } else {
        "Unexpected status: "@ + status
    }
}

/// Builds the error for a reply whose status is not "ok".
fn failure(status: String, message: Option<String>) -> (r: String)
    ensures
        r@ == failure_text(status@, message),
{
    if status == String::from_str("error") {
        match message {
            Some(m) => m,
            None => String::from_str("Unknown error"),
        }
    } else {
        let mut s = String::from_str("Unexpected status: ");
        s.append(status.as_str());
        s
    }
}

/// The records of a listing reply: those it carries (none if it carries no
/// list) when its status is "ok", else the error.
pub fn items_result(resp: ApiResponse<Vec<TodoItem>>) -> (r: Result<Vec<TodoItem>, String>)
    ensures
        status_of(resp.status@) == Status::Success ==> (r matches Ok(v) && v@ == match resp.items {
            Some(w) => w@,
            None => Seq::<TodoItem>::empty(),
        }),
        status_of(resp.status@) != Status::Success ==> (r matches Err(e) && e@ == failure_text(resp.status@, resp.message)),
{
    if read_status(&resp.status) == Status::Success {
        match resp.items {
            Some(v) => Ok(v),
            None => Ok(Vec::new()),
        }
    } else {
        Err(failure(resp.status, resp.message))
    }
}

/// The record of a read reply when its status is "ok" (an error if it
/// carries none), else the error.
pub fn item_result(resp: ApiResponse<TodoItem>) -> (r: Result<TodoItem, String>)
    ensures
        status_of(resp.status@) == Status::Success ==> match resp.item {
            Some(t) => r == Ok::<TodoItem, String>(t),
            None => r matches Err(e) && e@ == "Item not valid"@,
        },
        status_of(resp.status@) != Status::Success ==> (r matches Err(e) && e@ == failure_text(resp.status@, resp.message)),
{
    if read_status(&resp.status) == Status::Success {
        match resp.item {
            Some(t) => Ok(t),
            None => Err(String::from_str("Item not valid")),
        }
    } else {
        Err(failure(resp.status, resp.message))
    }
}

/// The outcome of a write reply: `done_text` when its status is "ok", else
/// the error.
pub fn ack_result(resp: ApiResponse<TodoItem>, done_text: &str) -> (r: Result<String, String>)
    ensures
        status_of(resp.status@) == Status::Success ==> (r matches Ok(s) && s@ == done_text@),
        status_of(resp.status@) != Status::Success ==> (r matches Err(e) && e@ == failure_text(resp.status@, resp.message)),
{
    if read_status(&resp.status) == Status::Success {
        Ok(String::from_str(done_text))
    } else {
        Err(failure(resp.status, resp.message))
    }
}

/// The address of the collection of records.
pub open spec fn collection_address(api_url: Seq<char>) -> Seq<char> {
    api_url + "/todos"@
}

/// The address of record `id`.
pub open spec fn record_address(api_url: Seq<char>, id: Seq<char>) -> Seq<char> {
    api_url + "/todos/"@ + id
}

/// Builds the address of the collection of records.
pub fn collection_url(api_url: &str) -> (r: String)
    ensures
        r@ == collection_address(api_url@),
{
    let mut s = String::from_str(api_url);
    s.append("/todos");
    s
}

/// Builds the address of the record with id `id`.
pub fn item_url(api_url: &str, id: i64) -> (r: String)
    ensures
        r@ == record_address(api_url@, decimal(id as int)),
{
    let mut s = String::from_str(api_url);
    s.append("/todos/");
    push_decimal(&mut s, id);
    s
}

/// Builds the address of a record, from the id it carries.
pub fn record_url(api_url: &str, item: &TodoItem) -> (r: String)
    ensures
        r@ == record_address(api_url@, digits(item.id as nat)),
{
    let mut s = String::from_str(api_url);
    s.append("/todos/");
    push_digits(&mut s, item.id);
    s
}

/// A record with its completion flipped at time `now`: it is stamped with
/// `now` when it becomes done and reset to the epoch when it no longer is.
pub open spec fn toggle_spec(t: Todo, now: int) -> Todo {
    Todo {
        done: !t.done,
        finish_date: if !t.done { now } else { EPOCH as int },
        ..t
    }
}

/// A record sent as an update at time `now`, given what is stored: it is
/// stamped with `now` when it becomes done, reset to the epoch when it stops
/// being done, and keeps the finish date it carries otherwise.
pub open spec fn reconcile_spec(stored: Todo, incoming: Todo, now: int) -> Todo {
    if !stored.done && incoming.done {
        Todo { finish_date: now, ..incoming }
    } else if stored.done && !incoming.done {
        Todo { finish_date: EPOCH as int, ..incoming }
    } else {
        incoming
    }
}

/// A record about to be created at time `now`.
pub open spec fn stamp_spec(t: Todo, now: int) -> Todo {
    Todo { creation_date: now, ..t }
}

/// Toggling a record that is not done at time `t1` marks it done and
/// finished at `t1`; toggling that again at any time marks it not done with
/// its finish date back at the epoch. Every other field is kept throughout.
pub proof fn toggle_twice(item: Todo, t1: int, t2: int)
    requires
        !item.done,
    ensures
        toggle_spec(item, t1).done,
        toggle_spec(item, t1).finish_date == t1,
        toggle_spec(toggle_spec(item, t1), t2) == (Todo { finish_date: EPOCH as int, ..item }),
{
}

/// Flips a record's completion at time `now`.
pub fn toggled(item: TodoItem, now: i64) -> (r: TodoItem)
    ensures
        r@ == toggle_spec(item@, now as int),
{
    let mut item = item;
    item.done = !item.done;
    if item.done {
        item.finish_date = now;
    } else {
        item.finish_date = EPOCH;
    }
    item
}

/// Sets the finish date of an update at time `now` from the stored record.
pub fn reconciled(stored: &TodoItem, incoming: TodoItem, now: i64) -> (r: TodoItem)
    ensures
        r@ == reconcile_spec(stored@, incoming@, now as int),
{
    let mut item = incoming;
    if !stored.done && item.done {
        item.finish_date = now;
    }
    if stored.done && !item.done {
        item.finish_date = EPOCH;
    }
    item
}

/// Sets the creation date of a record about to be created at time `now`.
pub fn stamped(item: TodoItem, now: i64) -> (r: TodoItem)
    ensures
        r@ == stamp_spec(item@, now as int),
{
    let mut item = item;
    item.creation_date = now;
    item
}

/// Decides the write of a toggle at time `now` from the reply to the read:
/// the record flipped, or the read's error.
pub fn toggle_step(fetched: ApiResponse<TodoItem>, now: i64) -> (r: Result<TodoItem, String>)
    ensures
        status_of(fetched.status@) == Status::Success ==> match fetched.item {
            Some(t) => r matches Ok(w) && w@ == toggle_spec(t@, now as int),
            None => r matches Err(e) && e@ == "Item not valid"@,
        },
        status_of(fetched.status@) != Status::Success ==> (r matches Err(e) && e@ == failure_text(fetched.status@, fetched.message)),
{
    match item_result(fetched) {
        Ok(t) => Ok(toggled(t, now)),
        Err(e) => Err(e),
    }
}

/// Decides the write of an update at time `now` from the reply to the read
/// of the stored record: `incoming` with its finish date set, or the read's
/// error.
pub fn update_step(fetched: ApiResponse<TodoItem>, incoming: TodoItem, now: i64) -> (r: Result<TodoItem, String>)
    ensures
        status_of(fetched.status@) == Status::Success ==> match fetched.item {
            Some(t) => r matches Ok(w) && w@ == reconcile_spec(t@, incoming@, now as int),
            None => r matches Err(e) && e@ == "Item not valid"@,
        },
        status_of(fetched.status@) != Status::Success ==> (r matches Err(e) && e@ == failure_text(fetched.status@, fetched.message)),
{
    match item_result(fetched) {
        Ok(t) => Ok(reconciled(&t, incoming, now)),
        Err(e) => Err(e),
    }
}

} // verus!

//! Statements against the `todos` table: text with `?` placeholders and the
//! values bound to them, in order. No value is ever written into the text;
//! column names and directions come from fixed lists.

use vstd::prelude::*;
use crate::record::{SearchParams, Todo, TodoItem};
use crate::text::{is_blank, text_is_blank};

verus! {

/// Page size when none is asked for.
pub const DEFAULT_COUNT: i64 = 25;
/// Smallest page size.
pub const MIN_COUNT: i64 = 1;
/// Largest page size.
pub const MAX_COUNT: i64 = 100;
/// Largest number of rows the autocomplete search returns.
pub const AUTOCOMPLETE_LIMIT: i64 = 10;

/// The column that a listing is sorted by.
#[derive(Clone, Copy, Debug, PartialEq, Eq, Structural)]
pub enum SortBy {
    CreationDate,
    DueDate,
    Priority,
    Done,
}

/// Sort direction.
#[derive(Clone, Copy, Debug, PartialEq, Eq, Structural)]
pub enum Order {
    Asc,
    Desc,
}

/// The parameters of a listing, as they arrive: every one may be absent.
#[derive(Clone, Debug, PartialEq, Eq)]
pub struct QueryParams {
    /// Page size; clamped to `MIN_COUNT..=MAX_COUNT`, `DEFAULT_COUNT` if absent.
    pub count: Option<i64>,
    /// Rows to skip; negative or absent means none.
    pub offset: Option<i64>,
    /// Sort column; creation date if absent.
    pub sort_by: Option<SortBy>,
    /// Sort direction; descending if absent.
    pub order: Option<Order>,
    /// Only rows whose `done` flag equals this, when present.
    pub done: Option<bool>,
    /// Only rows whose title or content contains this text, when present.
    pub search: Option<String>,
}

impl QueryParams {
    /// A listing with every parameter at its default.
    pub fn defaults() -> (r: QueryParams)
        ensures
            r.count is None && r.offset is None && r.sort_by is None && r.order is None
                && r.done is None && r.search is None,
    {
        QueryParams { count: None, offset: None, sort_by: None, order: None, done: None, search: None }
    }

    /// The listing that a plain done/not-done search stands for: that filter,
    /// every other parameter at its default.
    pub fn from_search(p: &SearchParams) -> (r: QueryParams)
        ensures
            r.done == p.done,
            r.count is None && r.offset is None && r.sort_by is None && r.order is None && r.search is None,
    {
        QueryParams { count: None, offset: None, sort_by: None, order: None, done: p.done, search: None }
    }
}

/// A value bound to a placeholder.
#[derive(Clone, Debug, PartialEq, Eq)]
pub enum SqlValue {
    Int(i64),
    Bool(bool),
    Text(String),
}

/// A bound value, as a mathematical value.
pub enum Arg {
    Int(int),
    Bool(bool),
    Text(Seq<char>),
}

impl View for SqlValue {
    type V = Arg;

    open spec fn view(&self) -> Arg {
        match self {
            SqlValue::Int(i) => Arg::Int(*i as int),
            SqlValue::Bool(b) => Arg::Bool(*b),
            SqlValue::Text(s) => Arg::Text(s@),
        }
    }
}

/// A statement: its text, and the values for its placeholders in order.
#[derive(Clone, Debug, PartialEq, Eq)]
pub struct Statement {
    pub sql: String,
    pub args: Vec<SqlValue>,
}

/// The bound values of a statement, as mathematical values.
pub open spec fn args_view(args: Seq<SqlValue>) -> Seq<Arg> {
    args.map_values(|a: SqlValue| a@)
}

impl Statement {
    /// The statement's text.
    pub open spec fn text(&self) -> Seq<char> {
        self.sql@
    }

    /// The statement's bound values.
    pub open spec fn bound(&self) -> Seq<Arg> {
        args_view(self.args@)
    }
}

/// `x` constrained to `lo..=hi`.
pub open spec fn clamp(x: int, lo: int, hi: int) -> int {
    if x < lo { lo } else if x > hi { hi } else { x }
}

/// The page size that a listing uses for the given `count`.
pub open spec fn page_size_of(count: Option<i64>) -> int {
    match count {
        Some(c) => clamp(c as int, MIN_COUNT as int, MAX_COUNT as int),
        None => DEFAULT_COUNT as int,
    }
}

/// The number of rows a listing skips for the given `offset`.
pub open spec fn page_offset_of(offset: Option<i64>) -> int {
    match offset {
        Some(o) => if o < 0 { 0 } else { o as int },
        None => 0,
    }
}

/// The page size for `count`: the default if absent, else clamped.
pub fn page_size(count: Option<i64>) -> (r: i64)
    ensures
        r == page_size_of(count),
        MIN_COUNT <= r <= MAX_COUNT,
{
    match count {
        Some(c) => if c < MIN_COUNT { MIN_COUNT } else if c > MAX_COUNT { MAX_COUNT } else { c },
        None => DEFAULT_COUNT,
    }
}

/// The rows to skip for `offset`: zero if absent or negative.
pub fn page_offset(offset: Option<i64>) -> (r: i64)
    ensures
        r == page_offset_of(offset),
        r >= 0,
{
    match offset {
        Some(o) => if o < 0 { 0 } else { o },
        None => 0,
    }
}

/// The column name for a sort key.
pub open spec fn column_name(s: SortBy) -> Seq<char> {
    match s {
        SortBy::CreationDate => "creation_date"@,
        SortBy::DueDate => "due_date"@,
        SortBy::Priority => "priority"@,
        SortBy::Done => "done"@,
    }
}

/// The keyword for a sort direction.
pub open spec fn order_keyword(o: Order) -> Seq<char> {
    match o {
        Order::Asc => "ASC"@,
        Order::Desc => "DESC"@,
    }
}

/// The column name for a sort key, from the fixed list.
pub fn sort_column(s: SortBy) -> (r: &'static str)
    ensures
        r@ == column_name(s),
{
    match s {
        SortBy::CreationDate => "creation_date",
        SortBy::DueDate => "due_date",
        SortBy::Priority => "priority",
        SortBy::Done => "done",
    }
}

/// The keyword for a sort direction.
pub fn sort_keyword(o: Order) -> (r: &'static str)
    ensures
        r@ == order_keyword(o),
{
    match o {
        Order::Asc => "ASC",
        Order::Desc => "DESC",
    }
}

/// What a listing asks of the store, once its parameters are settled.
pub struct ListPlan {
    pub search: Option<Seq<char>>,
    pub done: Option<bool>,
    pub sort_by: SortBy,
    pub order: Order,
    pub limit: int,
    pub offset: int,
}

/// The settled form of a listing's parameters.
pub open spec fn list_plan(p: QueryParams) -> ListPlan {
    ListPlan {
        search: match p.search {
            Some(s) => Some(s@),
            None => None,
        },
        done: p.done,
        sort_by: match p.sort_by {
            Some(s) => s,
            None => SortBy::CreationDate,
        },
        order: match p.order {
            Some(o) => o,
            None => Order::Desc,
        },
        limit: page_size_of(p.count),
        offset: page_offset_of(p.offset),
    }
}

/// The columns every read returns, in order.
pub open spec fn select_head() -> Seq<char> {
    "SELECT id, title, content, done, priority, creation_date, due_date, finish_date FROM todos"@
}

/// The pattern that a `LIKE` matches a text containing `q` with.
pub open spec fn like_pattern(q: Seq<char>) -> Seq<char> {
    seq!['%'] + q + seq!['%']
}

/// The text of a listing's statement.
pub open spec fn list_sql(plan: ListPlan) -> Seq<char> {
    select_head() + " WHERE 1 = 1"@
        + (if plan.search is Some { " AND (title LIKE ? OR content LIKE ?)"@ } else { Seq::empty() })
        + (if plan.done is Some { " AND done = ?"@ } else { Seq::empty() })
        + " ORDER BY "@ + column_name(plan.sort_by) + " "@ + order_keyword(plan.order)
        + " LIMIT ? OFFSET ?"@
}

/// The values bound in a listing's statement.
pub open spec fn list_args(plan: ListPlan) -> Seq<Arg> {
    (match plan.search {
        Some(q) => seq![Arg::Text(like_pattern(q)), Arg::Text(like_pattern(q))],
        None => Seq::empty(),
    })
        + (match plan.done {
        Some(d) => seq![Arg::Bool(d)],
        None => Seq::empty(),
    })
        + seq![Arg::Int(plan.limit), Arg::Int(plan.offset)]
}

/// Builds the `LIKE` pattern for a text containing `q`.
pub fn like_text(q: &str) -> (r: String)
    ensures
        r@ == like_pattern(q@),
{
    proof { reveal_strlit("%"); }
    let mut s = String::from_str("%");
    s.append(q);
    s.append("%");
    s
}

/// Builds the statement that lists records for `params`: the optional
/// search and done filters, then the sort from the fixed lists, then the
/// page size and offset, each value bound to a placeholder.
pub fn list_statement(params: &QueryParams) -> (r: Statement)
    ensures
        r.text() == list_sql(list_plan(*params)),
        r.bound() == list_args(list_plan(*params)),
{
    let ghost plan = list_plan(*params);
    let limit = page_size(params.count);
    let offset = page_offset(params.offset);
    let sort_by = match params.sort_by {
        Some(s) => s,
        None => SortBy::CreationDate,
    };
    let order = match params.order {
        Some(o) => o,
        None => Order::Desc,
    };
    let mut sql = select_all();
    sql.append(" WHERE 1 = 1");
    let mut args: Vec<SqlValue> = Vec::new();
    let ghost text0 = sql@;
    match &params.search {
        Some(q) => {
            sql.append(" AND (title LIKE ? OR content LIKE ?)");
            args.push(SqlValue::Text(like_text(q.as_str())));
            args.push(SqlValue::Text(like_text(q.as_str())));
        },
        None => {},
    }
    let ghost text1 = sql@;
    let ghost args1 = args@;
    match params.done {
        Some(d) => {
            sql.append(" AND done = ?");
            args.push(SqlValue::Bool(d));
        },
        None => {},
    }
    let ghost text2 = sql@;
    let ghost args2 = args@;
    sql.append(" ORDER BY ");
    sql.append(sort_column(sort_by));
    sql.append(" ");
    sql.append(sort_keyword(order));
    sql.append(" LIMIT ? OFFSET ?");
    args.push(SqlValue::Int(limit));
    args.push(SqlValue::Int(offset));
    proof {
        assert(text1 == text0 + (if plan.search is Some { " AND (title LIKE ? OR content LIKE ?)"@ } else { Seq::empty() }));
        assert(text2 == text1 + (if plan.done is Some { " AND done = ?"@ } else { Seq::empty() }));
        assert(sql@ =~= list_sql(plan));
        assert(args_view(args1) =~= match plan.search {
            Some(q) => seq![Arg::Text(like_pattern(q)), Arg::Text(like_pattern(q))],
            None => Seq::<Arg>::empty(),
        });
        assert(args_view(args2) =~= args_view(args1) + match plan.done {
            Some(d) => seq![Arg::Bool(d)],
            None => Seq::<Arg>::empty(),
        });
        assert(args_view(args@) =~= args_view(args2) + seq![Arg::Int(plan.limit), Arg::Int(plan.offset)]);
    }
    Statement { sql, args }
}

/// Starts a read of every column of the table.
fn select_all() -> (r: String)
    ensures
        r@ == select_head(),
{
    String::from_str("SELECT id, title, content, done, priority, creation_date, due_date, finish_date FROM todos")
}

/// The text of the statement that reads one record by id.
pub open spec fn get_sql() -> Seq<char> {
    select_head() + " WHERE id = ?"@
}

/// Builds the statement that reads the record with the given id.
pub fn get_statement(id: i64) -> (r: Statement)
    ensures
        r.text() == get_sql(),
        r.bound() == seq![Arg::Int(id as int)],
{
    let mut sql = select_all();
    sql.append(" WHERE id = ?");
    let mut args: Vec<SqlValue> = Vec::new();
    args.push(SqlValue::Int(id));
    proof { assert(args_view(args@) =~= seq![Arg::Int(id as int)]); }
    Statement { sql, args }
}

/// The text of the statement that adds a record; the store assigns its id.
pub open spec fn insert_sql() -> Seq<char> {
    "INSERT INTO todos (title, content, done, priority, creation_date, due_date, finish_date) VALUES (?, ?, ?, ?, ?, ?, ?)"@
}

/// The values bound when adding `t`: every field but the id.
pub open spec fn insert_args(t: Todo) -> Seq<Arg> {
    seq![
        Arg::Text(t.title),
        Arg::Text(t.content),
        Arg::Bool(t.done),
        Arg::Int(t.priority),
        Arg::Int(t.creation_date),
        Arg::Int(t.due_date),
        Arg::Int(t.finish_date),
    ]
}

/// Builds the statement that adds `item`; its `id` is left to the store.
pub fn insert_statement(item: &TodoItem) -> (r: Statement)
    ensures
        r.text() == insert_sql(),
        r.bound() == insert_args(item@),
{
    let sql = String::from_str(
        "INSERT INTO todos (title, content, done, priority, creation_date, due_date, finish_date) VALUES (?, ?, ?, ?, ?, ?, ?)",
    );
    let mut args: Vec<SqlValue> = Vec::new();
    args.push(SqlValue::Text(item.title.clone()));
    args.push(SqlValue::Text(item.content.clone()));
    args.push(SqlValue::Bool(item.done));
    args.push(SqlValue::Int(item.priority as i64));
    args.push(SqlValue::Int(item.creation_date));
    args.push(SqlValue::Int(item.due_date));
    args.push(SqlValue::Int(item.finish_date));
    proof { assert(args_view(args@) =~= insert_args(item@)); }
    Statement { sql, args }
}

/// The text of the statement that rewrites a record's mutable fields.
pub open spec fn update_sql() -> Seq<char> {
    "UPDATE todos SET title = ?, content = ?, done = ?, priority = ?, due_date = ?, finish_date = ? WHERE id = ?"@
}

/// The values bound when record `id` is rewritten from `t`: the mutable
/// fields, then the id. Neither `t.id` nor `t.creation_date` is bound.
pub open spec fn update_args(id: int, t: Todo) -> Seq<Arg> {
    seq![
        Arg::Text(t.title),
        Arg::Text(t.content),
        Arg::Bool(t.done),
        Arg::Int(t.priority),
        Arg::Int(t.due_date),
        Arg::Int(t.finish_date),
        Arg::Int(id),
    ]
}

/// Builds the statement that rewrites record `id` from `payload`. The id and
/// creation date that the payload carries are ignored.
pub fn update_statement(id: i64, payload: &TodoItem) -> (r: Statement)
    ensures
        r.text() == update_sql(),
        r.bound() == update_args(id as int, payload@),
{
    let sql = String::from_str(
        "UPDATE todos SET title = ?, content = ?, done = ?, priority = ?, due_date = ?, finish_date = ? WHERE id = ?",
    );
    let mut args: Vec<SqlValue> = Vec::new();
    args.push(SqlValue::Text(payload.title.clone()));
    args.push(SqlValue::Text(payload.content.clone()));
    args.push(SqlValue::Bool(payload.done));
    args.push(SqlValue::Int(payload.priority as i64));
    args.push(SqlValue::Int(payload.due_date));
    args.push(SqlValue::Int(payload.finish_date));
    args.push(SqlValue::Int(id));
    proof { assert(args_view(args@) =~= update_args(id as int, payload@)); }
    Statement { sql, args }
}

/// The text of the statement that removes a record by id.
pub open spec fn delete_sql() -> Seq<char> {
    "DELETE FROM todos WHERE id = ?"@
}

/// Builds the statement that removes the record with the given id.
pub fn delete_statement(id: i64) -> (r: Statement)
    ensures
        r.text() == delete_sql(),
        r.bound() == seq![Arg::Int(id as int)],
{
    let sql = String::from_str("DELETE FROM todos WHERE id = ?");
    let mut args: Vec<SqlValue> = Vec::new();
    args.push(SqlValue::Int(id));
    proof { assert(args_view(args@) =~= seq![Arg::Int(id as int)]); }
    Statement { sql, args }
}

/// The text of the autocomplete search: title or content matches, at most
/// `AUTOCOMPLETE_LIMIT` rows.
pub open spec fn autocomplete_sql() -> Seq<char> {
    select_head() + " WHERE title LIKE ? OR content LIKE ? LIMIT ?"@
}

/// The values bound in the autocomplete search for `q`.
pub open spec fn autocomplete_args(q: Seq<char>) -> Seq<Arg> {
    seq![Arg::Text(like_pattern(q)), Arg::Text(like_pattern(q)), Arg::Int(AUTOCOMPLETE_LIMIT as int)]
}

/// Builds the autocomplete search for the query text `q`. There is none
/// when `q` is absent, empty or white space only: the answer is then no rows.
pub fn autocomplete_statement(q: Option<&str>) -> (r: Option<Statement>)
    ensures
        match q {
            Some(t) if !is_blank(t@) => r matches Some(st) && st.text() == autocomplete_sql()
                && st.bound() == autocomplete_args(t@),
            _ => r is None,
        },
{
    match q {
        Some(t) => {
            if text_is_blank(t) {
                None
            } else {
                let mut sql = select_all();
                sql.append(" WHERE title LIKE ? OR content LIKE ? LIMIT ?");
                let mut args: Vec<SqlValue> = Vec::new();
                args.push(SqlValue::Text(like_text(t)));
                args.push(SqlValue::Text(like_text(t)));
                args.push(SqlValue::Int(AUTOCOMPLETE_LIMIT));
                proof { assert(args_view(args@) =~= autocomplete_args(t@)); }
                Some(Statement { sql, args })
            }
        },
        None => None,
    }
}

} // verus!

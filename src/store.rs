//! What the statements of `query` mean to the `todos` table, and the laws
//! that follow for the service's operations.
//!
//! The table is a map from id to record. A write or a read by id is read by
//! its text and its bound values; a text this module does not know changes
//! nothing. A listing is read by its settled parameters (`ListPlan`), whose
//! text and values are `list_sql` and `list_args`.

use vstd::prelude::*;
use crate::handlers::{merged, not_found_message, write_envelope, Envelope};
use crate::query::{
    like_pattern, get_sql, AUTOCOMPLETE_LIMIT, insert_args, insert_sql, list_plan, page_offset_of, page_size_of, update_args,
    update_sql, delete_sql, Arg, ListPlan, Order, QueryParams, SortBy,
};
use crate::record::Todo;

verus! {

/// The stored records by id.
pub type Table = Map<int, Todo>;

/// Every stored record sits under its own id.
pub open spec fn well_formed(t: Table) -> bool {
    forall|k: int| #[trigger] t.contains_key(k) ==> t[k].id == k
}

/// The text bound at position `i`, or empty.
pub open spec fn text_at(args: Seq<Arg>, i: int) -> Seq<char> {
    match args[i] {
        Arg::Text(s) => s,
        _ => Seq::empty(),
    }
}

/// The integer bound at position `i`, or zero.
pub open spec fn int_at(args: Seq<Arg>, i: int) -> int {
    match args[i] {
        Arg::Int(n) => n,
        _ => 0,
    }
}

/// The flag bound at position `i`, or false.
pub open spec fn bool_at(args: Seq<Arg>, i: int) -> bool {
    match args[i] {
        Arg::Bool(b) => b,
        _ => false,
    }
}

/// The table after a write, and the number of rows it affected. `fresh` is
/// the id the store assigns to an added record.
pub open spec fn effect(t: Table, text: Seq<char>, args: Seq<Arg>, fresh: int) -> (Table, nat) {
    if text == insert_sql() && args.len() == 7 {
        let row = Todo {
            id: fresh,
            title: text_at(args, 0),
            content: text_at(args, 1),
            done: bool_at(args, 2),
            priority: int_at(args, 3),
            creation_date: int_at(args, 4),
            due_date: int_at(args, 5),
            finish_date: int_at(args, 6),
        };
        (t.insert(fresh, row), 1)
    } else if text == update_sql() && args.len() == 7 {
        let id = int_at(args, 6);
        if t.contains_key(id) {
            let row = Todo {
                id: id,
                title: text_at(args, 0),
                content: text_at(args, 1),
                done: bool_at(args, 2),
                priority: int_at(args, 3),
                creation_date: t[id].creation_date,
                due_date: int_at(args, 4),
                finish_date: int_at(args, 5),
            };
            (t.insert(id, row), 1)
        } else {
            (t, 0)
        }
    } else if text == delete_sql() && args.len() == 1 {
        let id = int_at(args, 0);
        if t.contains_key(id) { (t.remove(id), 1) } else { (t, 0) }
    } else {
        (t, 0)
    }
}

/// The record a read by id returns, if any.
pub open spec fn read_one(t: Table, text: Seq<char>, args: Seq<Arg>) -> Option<Todo> {
    if text == get_sql() && args.len() == 1 && t.contains_key(int_at(args, 0)) {
        Some(t[int_at(args, 0)])
    } else {
        None
    }
}

/// A character compared without regard to ASCII case, as the store's
/// `LIKE` compares.
pub open spec fn fold(c: char) -> int {
    if 'A' <= c && c <= 'Z' { (c as u32) + 32 } else { c as u32 as int }
}

/// Whether `q` occurs in `s` at position `i`, ignoring ASCII case.
pub open spec fn occurs_at(s: Seq<char>, q: Seq<char>, i: int) -> bool {
    0 <= i && i + q.len() <= s.len() && forall|j: int|
        0 <= j < q.len() ==> #[trigger] fold(q[j]) == fold(s[i + j])
}

/// Whether `q` occurs in `s`, ignoring ASCII case.
pub open spec fn like_contains(s: Seq<char>, q: Seq<char>) -> bool {
    exists|i: int| #[trigger] occurs_at(s, q, i)
}

/// Whether a search text holds none of the characters that `LIKE` reads as
/// wildcards (`%` and `_`). For such a text, matching `%q%` is exactly an
/// occurrence of `q` ignoring ASCII case (`like_pattern_is_contains`).
pub open spec fn literal_search(q: Seq<char>) -> bool {
    !q.contains('%') && !q.contains('_')
}

/// Whether `s` matches the `LIKE` pattern `p`: `%` matches any run of
/// characters, `_` any one character, and any other character itself,
/// ignoring ASCII case.
pub open spec fn like_match(s: Seq<char>, p: Seq<char>) -> bool
    decreases s.len() + p.len(),
{
    if p.len() == 0 {
        s.len() == 0
    } else if p[0] == '%' {
        like_match(s, p.drop_first()) || (s.len() > 0 && like_match(s.drop_first(), p))
    } else if p[0] == '_' {
        s.len() > 0 && like_match(s.drop_first(), p.drop_first())
    } else {
        s.len() > 0 && fold(s[0]) == fold(p[0]) && like_match(s.drop_first(), p.drop_first())
    }
}

/// Whether a record passes the filters of a listing: the search pattern
/// matches its title or its content, and its flag is the one asked for.
pub open spec fn keeps(plan: ListPlan, r: Todo) -> bool {
    &&& match plan.search {
        Some(q) => like_match(r.title, like_pattern(q)) || like_match(r.content, like_pattern(q)),
        None => true,
    }
    &&& match plan.done {
        Some(d) => r.done == d,
        None => true,
    }
}

/// A lone `%` matches every text.
proof fn percent_matches_all(s: Seq<char>)
    ensures
        like_match(s, seq!['%']),
    decreases s.len(),
{
    let p = seq!['%'];
    assert(p[0] == '%');
    assert(p.drop_first() =~= Seq::<char>::empty());
    if s.len() > 0 {
        percent_matches_all(s.drop_first());
    } else {
        assert(like_match(s, p.drop_first()));
    }
}

/// A pattern that starts with a literal text matches exactly the texts that
/// start with it (ignoring ASCII case) and go on to match the rest.
proof fn literal_prefix(s: Seq<char>, q: Seq<char>, rest: Seq<char>)
    requires
        literal_search(q),
    ensures
        like_match(s, q + rest) == (q.len() <= s.len() && (forall|j: int|
            0 <= j < q.len() ==> #[trigger] fold(q[j]) == fold(s[j])) && like_match(s.skip(q.len() as int), rest)),
    decreases q.len(),
{
    if q.len() == 0 {
        assert(q + rest =~= rest);
        assert(s.skip(0) =~= s);
    } else {
        let p = q + rest;
        assert(p[0] == q[0]);
        assert(q.contains(q[0]));
        assert(p.drop_first() =~= q.drop_first() + rest);
        let q1 = q.drop_first();
        assert forall|c: char| q1.contains(c) implies q.contains(c) by {
            let k = choose|k: int| 0 <= k < q1.len() && q1[k] == c;
            assert(q[k + 1] == c);
        }
        if s.len() > 0 {
            let s1 = s.drop_first();
            literal_prefix(s1, q1, rest);
            if q.len() <= s.len() {
                assert(s1.skip(q1.len() as int) =~= s.skip(q.len() as int));
            }
            if q.len() <= s.len() && (forall|j: int| 0 <= j < q.len() ==> #[trigger] fold(q[j]) == fold(s[j])) {
                assert forall|j: int| 0 <= j < q1.len() implies #[trigger] fold(q1[j]) == fold(s1[j]) by {
                    assert(fold(q[j + 1]) == fold(s[j + 1]));
                }
            }
            if like_match(s, p) {
                assert forall|j: int| 0 <= j < q.len() implies #[trigger] fold(q[j]) == fold(s[j]) by {
                    if j > 0 {
                        assert(fold(q1[j - 1]) == fold(s1[j - 1]));
                    }
                }
            }
        }
    }
}

/// A pattern that starts with `%` matches a text exactly when the rest of
/// the pattern matches some suffix of it.
proof fn leading_percent(s: Seq<char>, r: Seq<char>)
    ensures
        like_match(s, seq!['%'] + r) == exists|i: int| 0 <= i <= s.len() && like_match(#[trigger] s.skip(i), r),
    decreases s.len(),
{
    let p = seq!['%'] + r;
    assert(p.drop_first() =~= r);
    assert(s.skip(0) =~= s);
    if s.len() == 0 {
        if exists|i: int| 0 <= i <= s.len() && like_match(#[trigger] s.skip(i), r) {
            let i = choose|i: int| 0 <= i <= s.len() && like_match(#[trigger] s.skip(i), r);
            assert(i == 0);
        }
    } else {
        let s1 = s.drop_first();
        leading_percent(s1, r);
        if like_match(s1, p) {
            let i = choose|i: int| 0 <= i <= s1.len() && like_match(#[trigger] s1.skip(i), r);
            assert(s1.skip(i) =~= s.skip(i + 1));
        }
        if exists|i: int| 0 <= i <= s.len() && like_match(#[trigger] s.skip(i), r) {
            let i = choose|i: int| 0 <= i <= s.len() && like_match(#[trigger] s.skip(i), r);
            if i > 0 {
                assert(s1.skip(i - 1) =~= s.skip(i));
            }
        }
    }
}

/// For a search text without wildcards, the pattern `%q%` matches exactly
/// the texts in which `q` occurs, ignoring ASCII case.
pub proof fn like_pattern_is_contains(s: Seq<char>, q: Seq<char>)
    requires
        literal_search(q),
    ensures
        like_match(s, like_pattern(q)) == like_contains(s, q),
{
    let tail = q + seq!['%'];
    assert(like_pattern(q) =~= seq!['%'] + tail);
    leading_percent(s, tail);
    if like_match(s, like_pattern(q)) {
        let i = choose|i: int| 0 <= i <= s.len() && like_match(#[trigger] s.skip(i), tail);
        literal_prefix(s.skip(i), q, seq!['%']);
        assert forall|j: int| 0 <= j < q.len() implies #[trigger] fold(q[j]) == fold(s[i + j]) by {
            assert(fold(q[j]) == fold(s.skip(i)[j]));
        }
        assert(occurs_at(s, q, i));
    }
    if like_contains(s, q) {
        let i = choose|i: int| #[trigger] occurs_at(s, q, i);
        literal_prefix(s.skip(i), q, seq!['%']);
        percent_matches_all(s.skip(i).skip(q.len() as int));
        assert forall|j: int| 0 <= j < q.len() implies #[trigger] fold(q[j]) == fold(s.skip(i)[j]) by {
            assert(fold(q[j]) == fold(s[i + j]));
        }
        assert(like_match(s.skip(i), tail));
    }
}

/// The value a listing is sorted on.
pub open spec fn sort_key(r: Todo, s: SortBy) -> int {
    match s {
        SortBy::CreationDate => r.creation_date,
        SortBy::DueDate => r.due_date,
        SortBy::Priority => r.priority,
        SortBy::Done => if r.done { 1 } else { 0 },
    }
}

/// Whether `s` is ordered on the key in the direction.
pub open spec fn sorted_on(s: Seq<Todo>, by: SortBy, order: Order) -> bool {
    forall|i: int, j: int|
        0 <= i < j < s.len() ==> match order {
            Order::Asc => sort_key(#[trigger] s[i], by) <= sort_key(#[trigger] s[j], by),
            Order::Desc => sort_key(s[i], by) >= sort_key(s[j], by),
        }
}

/// The records of `rows` that pass the listing's filters.
pub open spec fn matching(rows: Seq<Todo>, plan: ListPlan) -> Seq<Todo> {
    rows.filter(|r: Todo| keeps(plan, r))
}

/// The page of `s` that starts at `offset` and holds at most `limit` rows.
pub open spec fn window(s: Seq<Todo>, offset: int, limit: int) -> Seq<Todo> {
    let lo = if offset < s.len() { offset } else { s.len() as int };
    let hi = if offset + limit < s.len() { offset + limit } else { s.len() as int };
    s.subrange(lo, hi)
}

/// Whether `out` is an answer the store may give to the listing on the
/// records `rows`: the matching records, in an order sorted as asked (ties
/// in any order), paged by offset and limit.
pub open spec fn lists(rows: Seq<Todo>, plan: ListPlan, out: Seq<Todo>) -> bool {
    exists|s: Seq<Todo>|
        #[trigger] s.to_multiset() == matching(rows, plan).to_multiset() && sorted_on(s, plan.sort_by, plan.order)
            && out == window(s, plan.offset, plan.limit)
}

/// A listing returns at most `count` rows, clamped to 1..=100, and at most
/// 25 when no count is given.
pub proof fn listing_respects_page_size(rows: Seq<Todo>, params: QueryParams, out: Seq<Todo>)
    requires
        lists(rows, list_plan(params), out),
    ensures
        out.len() <= page_size_of(params.count),
        1 <= page_size_of(params.count) <= 100,
        params.count is None ==> out.len() <= 25,
{
    let plan = list_plan(params);
    let s = choose|s: Seq<Todo>|
        #[trigger] s.to_multiset() == matching(rows, plan).to_multiset() && sorted_on(s, plan.sort_by, plan.order)
            && out == window(s, plan.offset, plan.limit);
}

/// A listing skips the first `offset` matching rows: it returns the
/// matching rows that remain after them, up to the page size. A negative or
/// absent offset skips none.
pub proof fn listing_skips_offset(rows: Seq<Todo>, params: QueryParams, out: Seq<Todo>)
    requires
        lists(rows, list_plan(params), out),
    ensures
        ({
            let n = matching(rows, list_plan(params)).len() as int;
            let off = page_offset_of(params.offset);
            let rest = if n > off { n - off } else { 0 };
            out.len() == if rest < page_size_of(params.count) { rest } else { page_size_of(params.count) }
        }),
        page_offset_of(params.offset) == match params.offset {
            Some(o) => if o >= 0 { o as int } else { 0 },
            None => 0,
        },
        exists|s: Seq<Todo>|
            #[trigger] s.to_multiset() == matching(rows, list_plan(params)).to_multiset()
                && sorted_on(s, list_plan(params).sort_by, list_plan(params).order)
                && forall|i: int| 0 <= i < out.len() ==> out[i] == s[page_offset_of(params.offset) + i],
{
    let plan = list_plan(params);
    let s = choose|s: Seq<Todo>|
        #[trigger] s.to_multiset() == matching(rows, plan).to_multiset() && sorted_on(s, plan.sort_by, plan.order)
            && out == window(s, plan.offset, plan.limit);
    broadcast use vstd::seq_lib::group_to_multiset_ensures;
    assert(s.len() == s.to_multiset().len());
    assert(matching(rows, plan).len() == matching(rows, plan).to_multiset().len());
    assert forall|i: int| 0 <= i < out.len() implies out[i] == s[page_offset_of(params.offset) + i] by {
        assert(plan.offset < s.len());
    }
}

/// A listing's rows are ordered on the chosen column in the chosen
/// direction.
pub proof fn listing_is_sorted(rows: Seq<Todo>, params: QueryParams, out: Seq<Todo>)
    requires
        lists(rows, list_plan(params), out),
    ensures
        sorted_on(out, list_plan(params).sort_by, list_plan(params).order),
{
    let plan = list_plan(params);
    let s = choose|s: Seq<Todo>|
        #[trigger] s.to_multiset() == matching(rows, plan).to_multiset() && sorted_on(s, plan.sort_by, plan.order)
            && out == window(s, plan.offset, plan.limit);
    let lo = if plan.offset < s.len() { plan.offset } else { s.len() as int };
    assert forall|i: int, j: int| 0 <= i < j < out.len() implies match plan.order {
        Order::Asc => sort_key(#[trigger] out[i], plan.sort_by) <= sort_key(#[trigger] out[j], plan.sort_by),
        Order::Desc => sort_key(out[i], plan.sort_by) >= sort_key(out[j], plan.sort_by),
    } by {
        assert(out[i] == s[lo + i]);
        assert(out[j] == s[lo + j]);
    }
}

/// Every row of a searching listing holds the search text in its title or
/// in its content (ignoring ASCII case), and every row of a filtered listing
/// has the asked `done` flag. The search text is taken to hold no `LIKE`
/// wildcard: the store reads `%` and `_` in it as patterns.
pub proof fn listing_matches_search(rows: Seq<Todo>, params: QueryParams, out: Seq<Todo>)
    requires
        lists(rows, list_plan(params), out),
        params.search matches Some(q) ==> literal_search(q@),
    ensures
        forall|i: int| 0 <= i < out.len() ==> match params.search {
            Some(q) => like_contains(#[trigger] out[i].title, q@) || like_contains(out[i].content, q@),
            None => true,
        },
        forall|i: int| 0 <= i < out.len() ==> match params.done {
            Some(d) => #[trigger] out[i].done == d,
            None => true,
        },
        forall|r: Todo| #[trigger] out.contains(r) ==> rows.contains(r),
{
    let plan = list_plan(params);
    let m = matching(rows, plan);
    let s = choose|s: Seq<Todo>|
        #[trigger] s.to_multiset() == matching(rows, plan).to_multiset() && sorted_on(s, plan.sort_by, plan.order)
            && out == window(s, plan.offset, plan.limit);
    let lo = if plan.offset < s.len() { plan.offset } else { s.len() as int };
    broadcast use vstd::seq_lib::group_to_multiset_ensures;
    assert forall|i: int| 0 <= i < out.len() implies keeps(plan, #[trigger] out[i]) && rows.contains(out[i]) && match params.search {
        Some(q) => like_contains(out[i].title, q@) || like_contains(out[i].content, q@),
        None => true,
    } by {
        assert(out[i] == s[lo + i]);
        assert(s.contains(s[lo + i]));
        assert(s.to_multiset().count(out[i]) > 0);
        assert(m.contains(out[i]));
        let k = choose|k: int| 0 <= k < m.len() && m[k] == out[i];
        rows.lemma_filter_pred(|r: Todo| keeps(plan, r), k);
        rows.lemma_filter_contains_rev(|r: Todo| keeps(plan, r), out[i]);
        match params.search {
            Some(q) => {
                like_pattern_is_contains(out[i].title, q@);
                like_pattern_is_contains(out[i].content, q@);
            },
            None => {},
        }
    }
    assert forall|r: Todo| #[trigger] out.contains(r) implies rows.contains(r) by {
        let i = choose|i: int| 0 <= i < out.len() && out[i] == r;
        assert(keeps(plan, out[i]) && rows.contains(out[i]));
    }
}

/// The write statements have distinct texts.
proof fn write_texts_differ()
    ensures
        update_sql() != insert_sql(),
        delete_sql() != insert_sql(),
        delete_sql() != update_sql(),
{
    reveal_strlit("UPDATE todos SET title = ?, content = ?, done = ?, priority = ?, due_date = ?, finish_date = ? WHERE id = ?");
    reveal_strlit("INSERT INTO todos (title, content, done, priority, creation_date, due_date, finish_date) VALUES (?, ?, ?, ?, ?, ?, ?)");
    reveal_strlit("DELETE FROM todos WHERE id = ?");
    assert(update_sql()[0] != insert_sql()[0]);
    assert(delete_sql()[0] != insert_sql()[0]);
    assert(delete_sql()[0] != update_sql()[0]);
}

/// A record matches a searching listing when the search text occurs in its
/// title or its content: when the page starts at the first row and holds
/// every match, each stored record that matches is returned. The search text
/// is taken to hold no `LIKE` wildcard.
pub proof fn listing_returns_every_match(rows: Seq<Todo>, params: QueryParams, out: Seq<Todo>)
    requires
        lists(rows, list_plan(params), out),
        params.search matches Some(q) ==> literal_search(q@),
        page_offset_of(params.offset) == 0,
        matching(rows, list_plan(params)).len() <= page_size_of(params.count),
    ensures
        forall|i: int| 0 <= i < rows.len() && (match params.search {
            Some(q) => like_contains(rows[i].title, q@) || like_contains(rows[i].content, q@),
            None => true,
        }) && (match params.done {
            Some(d) => rows[i].done == d,
            None => true,
        }) ==> out.contains(#[trigger] rows[i]),
{
    let plan = list_plan(params);
    let m = matching(rows, plan);
    let s = choose|s: Seq<Todo>|
        #[trigger] s.to_multiset() == matching(rows, plan).to_multiset() && sorted_on(s, plan.sort_by, plan.order)
            && out == window(s, plan.offset, plan.limit);
    broadcast use vstd::seq_lib::group_to_multiset_ensures;
    assert(s.len() == s.to_multiset().len());
    assert(m.len() == m.to_multiset().len());
    assert(out =~= s);
    assert forall|i: int| 0 <= i < rows.len() && (match params.search {
        Some(q) => like_contains(rows[i].title, q@) || like_contains(rows[i].content, q@),
        None => true,
    }) && (match params.done {
        Some(d) => rows[i].done == d,
        None => true,
    }) implies out.contains(#[trigger] rows[i]) by {
        match params.search {
            Some(q) => {
                like_pattern_is_contains(rows[i].title, q@);
                like_pattern_is_contains(rows[i].content, q@);
            },
            None => {},
        }
        assert(keeps(plan, rows[i]));
        rows.lemma_filter_contains(|r: Todo| keeps(plan, r), i);
        assert(m.to_multiset().count(rows[i]) > 0);
        assert(s.to_multiset().count(rows[i]) > 0);
    }
}

/// Whether a record's title or its content matches the pattern `p`.
pub open spec fn either_matches(r: Todo, p: Seq<char>) -> bool {
    like_match(r.title, p) || like_match(r.content, p)
}

/// The records that the autocomplete search for `q` matches.
pub open spec fn autocomplete_matching(rows: Seq<Todo>, q: Seq<char>) -> Seq<Todo> {
    rows.filter(|r: Todo| either_matches(r, like_pattern(q)))
}

/// Whether `out` is an answer the store may give to the autocomplete search
/// for `q` on the records `rows`: as many matching records as the limit
/// allows, in no particular order.
pub open spec fn autocompletes(rows: Seq<Todo>, q: Seq<char>, out: Seq<Todo>) -> bool {
    exists|s: Seq<Todo>|
        #[trigger] s.to_multiset() == autocomplete_matching(rows, q).to_multiset()
            && out == s.take(if s.len() < AUTOCOMPLETE_LIMIT { s.len() as int } else { AUTOCOMPLETE_LIMIT as int })
}

/// The autocomplete search returns at most ten records, each holding the
/// search text in its title or its content (ignoring ASCII case), each one
/// of the stored records. It returns as many as there are matches, up to
/// ten; with ten or fewer matches it returns every one of them. The search
/// text is taken to hold no `LIKE` wildcard.
pub proof fn autocomplete_finds_text(rows: Seq<Todo>, q: Seq<char>, out: Seq<Todo>)
    requires
        autocompletes(rows, q, out),
        literal_search(q),
    ensures
        out.len() <= 10,
        forall|i: int| 0 <= i < out.len() ==> like_contains(#[trigger] out[i].title, q) || like_contains(out[i].content, q),
        forall|r: Todo| #[trigger] out.contains(r) ==> rows.contains(r),
        ({
            let n = autocomplete_matching(rows, q).len();
            out.len() == if n < 10 { n } else { 10 }
        }),
        autocomplete_matching(rows, q).len() <= 10 ==> forall|i: int|
            0 <= i < rows.len() && (like_contains(rows[i].title, q) || like_contains(rows[i].content, q))
                ==> out.contains(#[trigger] rows[i]),
{
    let m = autocomplete_matching(rows, q);
    let pred = |r: Todo| either_matches(r, like_pattern(q));
    let s = choose|s: Seq<Todo>|
        #[trigger] s.to_multiset() == autocomplete_matching(rows, q).to_multiset()
            && out == s.take(if s.len() < AUTOCOMPLETE_LIMIT { s.len() as int } else { AUTOCOMPLETE_LIMIT as int });
    broadcast use vstd::seq_lib::group_to_multiset_ensures;
    assert(s.len() == s.to_multiset().len());
    assert(m.len() == m.to_multiset().len());
    assert forall|i: int| 0 <= i < out.len() implies (like_contains(#[trigger] out[i].title, q)
        || like_contains(out[i].content, q)) && rows.contains(out[i]) by {
        assert(out[i] == s[i]);
        assert(s.contains(s[i]));
        assert(s.to_multiset().count(out[i]) > 0);
        assert(m.contains(out[i]));
        let k = choose|k: int| 0 <= k < m.len() && m[k] == out[i];
        rows.lemma_filter_pred(pred, k);
        rows.lemma_filter_contains_rev(pred, out[i]);
        like_pattern_is_contains(out[i].title, q);
        like_pattern_is_contains(out[i].content, q);
    }
    assert forall|r: Todo| #[trigger] out.contains(r) implies rows.contains(r) by {
        let i = choose|i: int| 0 <= i < out.len() && out[i] == r;
        assert(like_contains(out[i].title, q) || like_contains(out[i].content, q));
        assert(rows.contains(out[i]));
    }
    if m.len() <= 10 {
        assert(out =~= s);
        assert forall|i: int|
            0 <= i < rows.len() && (like_contains(rows[i].title, q) || like_contains(rows[i].content, q))
                implies out.contains(#[trigger] rows[i]) by {
            like_pattern_is_contains(rows[i].title, q);
            like_pattern_is_contains(rows[i].content, q);
            assert(pred(rows[i]));
            rows.lemma_filter_contains(pred, i);
            assert(m.to_multiset().count(rows[i]) > 0);
            assert(s.to_multiset().count(rows[i]) > 0);
        }
    }
}

/// A record added with fields F reads back by its new id with exactly F,
/// but for the id, which the store assigned.
pub proof fn create_then_read(t: Table, item: Todo, fresh: int)
    requires
        well_formed(t),
        !t.contains_key(fresh),
    ensures
        ({
            let (t2, n) = effect(t, insert_sql(), insert_args(item), fresh);
            &&& n == 1
            &&& well_formed(t2)
            &&& read_one(t2, get_sql(), seq![Arg::Int(fresh)]) == Some(Todo { id: fresh, ..item })
        }),
{
    let (t2, n) = effect(t, insert_sql(), insert_args(item), fresh);
    assert(int_at(seq![Arg::Int(fresh)], 0) == fresh);
    assert(t2.contains_key(fresh));
}

/// An update of an existing record keeps its id and its stored creation
/// date, whatever id and creation date the payload claims, and takes every
/// other field from the payload.
pub proof fn update_keeps_identity(t: Table, id: int, payload: Todo, fresh: int)
    requires
        well_formed(t),
        t.contains_key(id),
    ensures
        ({
            let (t2, n) = effect(t, update_sql(), update_args(id, payload), fresh);
            &&& n == 1
            &&& well_formed(t2)
            &&& t2.dom() == t.dom()
            &&& t2[id] == merged(t[id], payload)
            &&& t2[id].id == id
            &&& t2[id].creation_date == t[id].creation_date
            &&& forall|k: int| k != id && #[trigger] t.contains_key(k) ==> t2[k] == t[k]
        }),
{
    write_texts_differ();
    let (t2, n) = effect(t, update_sql(), update_args(id, payload), fresh);
    assert(int_at(update_args(id, payload), 6) == id);
    assert(t2.dom() =~= t.dom());
}

/// An update or delete of an id with no record affects no row, leaves the
/// table as it was and answers with the "does not exist" error; a read of
/// that id finds nothing.
pub proof fn missing_id_changes_nothing(t: Table, id: int, payload: Todo, fresh: int)
    requires
        !t.contains_key(id),
    ensures
        effect(t, update_sql(), update_args(id, payload), fresh) == (t, 0nat),
        effect(t, delete_sql(), seq![Arg::Int(id)], fresh) == (t, 0nat),
        read_one(t, get_sql(), seq![Arg::Int(id)]) is None,
        write_envelope(id, Ok(0nat)) == Envelope::Failed(not_found_message(id)),
{
    write_texts_differ();
    assert(int_at(seq![Arg::Int(id)], 0) == id);
    assert(int_at(update_args(id, payload), 6) == id);
}

} // verus!
